//! Request methods, and the list of methods that a governor applies to.

use vstd::prelude::*;

verus! {

/// The method of a request: one of the nine registered ones, or an extension
/// token.
#[derive(Debug, PartialEq, Eq, Hash)]
pub enum Method {
    Options,
    Get,
    Post,
    Put,
    Delete,
    Head,
    Trace,
    Connect,
    Patch,
    Extension(String),
}

/// A method as contracts see it: an extension is the characters of its token.
pub enum MethodToken {
    Options,
    Get,
    Post,
    Put,
    Delete,
    Head,
    Trace,
    Connect,
    Patch,
    Extension(Seq<char>),
}

impl View for Method {
    type V = MethodToken;

    open spec fn view(&self) -> MethodToken {
        match self {
            Method::Options => MethodToken::Options,
            Method::Get => MethodToken::Get,
            Method::Post => MethodToken::Post,
            Method::Put => MethodToken::Put,
            Method::Delete => MethodToken::Delete,
            Method::Head => MethodToken::Head,
            Method::Trace => MethodToken::Trace,
            Method::Connect => MethodToken::Connect,
            Method::Patch => MethodToken::Patch,
            Method::Extension(token) => MethodToken::Extension(token@),
        }
    }
}

impl Clone for Method {
    fn clone(&self) -> (copy: Self)
        ensures
            copy@ == self@,
    {
        match self {
            Method::Options => Method::Options,
            Method::Get => Method::Get,
            Method::Post => Method::Post,
            Method::Put => Method::Put,
            Method::Delete => Method::Delete,
            Method::Head => Method::Head,
            Method::Trace => Method::Trace,
            Method::Connect => Method::Connect,
            Method::Patch => Method::Patch,
            Method::Extension(token) => Method::Extension(token.clone()),
        }
    }
}

impl Method {
    /// Whether two methods are the same method.
    pub fn same(&self, other: &Method) -> (same: bool)
        ensures
            same == (self@ == other@),
    {
        match (self, other) {
            (Method::Options, Method::Options) => true,
            (Method::Get, Method::Get) => true,
            (Method::Post, Method::Post) => true,
            (Method::Put, Method::Put) => true,
            (Method::Delete, Method::Delete) => true,
            (Method::Head, Method::Head) => true,
            (Method::Trace, Method::Trace) => true,
            (Method::Connect, Method::Connect) => true,
            (Method::Patch, Method::Patch) => true,
            (Method::Extension(a), Method::Extension(b)) => *a == *b,
            _ => false,
        }
    }
}

/// The methods of a list as contracts see them.
pub open spec fn tokens(methods: Seq<Method>) -> Seq<MethodToken> {
    methods.map_values(|m: Method| m@)
}

/// A list of methods as contracts see it: no list, or the tokens of the list.
pub open spec fn allow_list(methods: Option<Vec<Method>>) -> Option<Seq<MethodToken>> {
    match methods {
        Some(list) => Some(tokens(list@)),
        None => None,
    }
}

/// Whether a governor with this list applies to `method`: it does where there is
/// no list, and where the list holds the method.
pub open spec fn applies_to(list: Option<Seq<MethodToken>>, method: MethodToken) -> bool {
    match list {
        Some(tokens) => tokens.contains(method),
        None => true,
    }
}

/// Whether `list` holds `method`.
pub fn contains_method(list: &Vec<Method>, method: &Method) -> (found: bool)
    ensures
        found == tokens(list@).contains(method@),
{
    let mut i: usize = 0;
    while i < list.len()
        invariant
            i <= list.len(),
            forall|j: int| 0 <= j < i ==> tokens(list@)[j] != method@,
        decreases list.len() - i,
    {
        if list[i].same(method) {
            assert(tokens(list@)[i as int] == method@);
            return true;
        }
        i += 1;
    }
    false
}

/// Whether a governor with the list `methods` applies to `method`.
pub fn method_applies(methods: &Option<Vec<Method>>, method: &Method) -> (applies: bool)
    ensures
        applies == applies_to(allow_list(*methods), method@),
{
    match methods {
        Some(list) => contains_method(list, method),
        None => true,
    }
}

/// A copy of a list of methods.
pub fn clone_methods(methods: &Option<Vec<Method>>) -> (copy: Option<Vec<Method>>)
    ensures
        allow_list(copy) == allow_list(*methods),
{
    match methods {
        Some(list) => {
            let mut copy: Vec<Method> = Vec::new();
            let mut i: usize = 0;
            while i < list.len()
                invariant
                    i <= list.len(),
                    copy@.len() == i,
                    forall|j: int| 0 <= j < i ==> copy@[j]@ == list@[j]@,
                decreases list.len() - i,
            {
                copy.push(list[i].clone());
                i += 1;
            }
            assert(tokens(copy@) =~= tokens(list@));
            Some(copy)
        },
        None => None,
    }
}

/// Whether two lists of methods hold the same methods in the same order.
pub fn same_methods(a: &Option<Vec<Method>>, b: &Option<Vec<Method>>) -> (same: bool)
    ensures
        same == (allow_list(*a) == allow_list(*b)),
{
    match (a, b) {
        (None, None) => true,
        (Some(x), Some(y)) => {
            if x.len() != y.len() {
                assert(tokens(x@).len() != tokens(y@).len());
                return false;
            }
            let mut i: usize = 0;
            while i < x.len()
                invariant
                    *a == Some(*x),
                    *b == Some(*y),
                    i <= x.len(),
                    x.len() == y.len(),
                    forall|j: int| 0 <= j < i ==> x@[j]@ == y@[j]@,
                decreases x.len() - i,
            {
                if !x[i].same(&y[i]) {
                    assert(tokens(x@)[i as int] != tokens(y@)[i as int]);
                    return false;
                }
                i += 1;
            }
            assert(tokens(x@) =~= tokens(y@));
            true
        },
        _ => false,
    }
}

} // verus!
