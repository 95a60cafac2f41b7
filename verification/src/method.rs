//! Request methods and the filter that decides which of them are limited.

use vstd::prelude::*;

verus! {

/// An HTTP request method, identified by its name as sent (`GET`, `POST`).
#[derive(Debug)]
pub struct Method {
    name: String,
}

impl View for Method {
    type V = Seq<char>;

    closed spec fn view(&self) -> Seq<char> {
        self.name@
    }
}

impl Clone for Method {
    fn clone(&self) -> (copy: Method)
        ensures
            copy@ == self@,
    {
        Method { name: self.name.clone() }
    }
}

impl Method {
    /// The method with the given name.
    pub fn new(name: &str) -> (method: Method)
        ensures
            method@ == name@,
    {
        Method { name: String::from_str(name) }
    }

    /// `GET`.
    pub fn get() -> (method: Method)
        ensures
            method@ == "GET"@,
    {
        Method::new("GET")
    }

    /// `POST`.
    pub fn post() -> (method: Method)
        ensures
            method@ == "POST"@,
    {
        Method::new("POST")
    }

    /// `PUT`.
    pub fn put() -> (method: Method)
        ensures
            method@ == "PUT"@,
    {
        Method::new("PUT")
    }

    /// `DELETE`.
    pub fn delete() -> (method: Method)
        ensures
            method@ == "DELETE"@,
    {
        Method::new("DELETE")
    }

    /// The method's name.
    pub fn as_str(&self) -> (name: &str)
        ensures
            name@ == self@,
    {
        self.name.as_str()
    }

    /// Whether two methods are the same method.
    pub fn same(&self, other: &Method) -> (same: bool)
        ensures
            same == (self@ == other@),
    {
        self.name == other.name
    }
}

/// The names of the methods in an allow-list.
pub open spec fn method_names(methods: Seq<Method>) -> Seq<Seq<char>> {
    Seq::new(methods.len(), |i: int| methods[i]@)
}

/// Whether a request with this method is subject to limiting: always where
/// no allow-list is configured, else exactly when the list names the method.
pub open spec fn is_limited(method: Seq<char>, configured: Option<Seq<Seq<char>>>) -> bool {
    match configured {
        None => true,
        Some(names) => names.contains(method),
    }
}

/// The allow-list as the filter sees it.
pub open spec fn configured_names(configured: Option<Vec<Method>>) -> Option<Seq<Seq<char>>> {
    match configured {
        None => None,
        Some(methods) => Some(method_names(methods@)),
    }
}

/// Whether an allow-list names a method.
pub fn lists(methods: &Vec<Method>, method: &Method) -> (listed: bool)
    ensures
        listed == method_names(methods@).contains(method@),
{
    let mut i: usize = 0;
    while i < methods.len()
        invariant
            i <= methods.len(),
            forall|j: int| 0 <= j < i ==> methods@[j]@ != method@,
        decreases methods.len() - i,
    {
        if methods[i].same(method) {
            assert(method_names(methods@)[i as int] == method@);
            return true;
        }
        i += 1;
    }
    false
}

/// The method filter. Requests whose method it does not pass bypass the
/// quota tracker.
pub fn passes(method: &Method, configured: &Option<Vec<Method>>) -> (limited: bool)
    ensures
        limited == is_limited(method@, configured_names(*configured)),
{
    match configured {
        None => true,
        Some(methods) => lists(methods, method),
    }
}

} // verus!
