//! Request methods and the services registered under them.

use crate::middleware::Middleware;
use vstd::prelude::*;

verus! {

/// A request method, by its name. Two methods are the same where their
/// names are.
#[derive(Debug, Clone)]
pub struct Method {
    pub name: String,
}

impl View for Method {
    type V = Seq<char>;

    open spec fn view(&self) -> Seq<char> {
        self.name@
    }
}

impl Method {
    /// The method with the name `name`.
    pub fn new(name: &str) -> (method: Self)
        ensures
            method@ == name@,
    {
        Method { name: name.to_owned() }
    }

    /// `GET`.
    pub fn get() -> (method: Self)
        ensures
            method@ == "GET"@,
    {
        Method::new("GET")
    }

    /// `HEAD`.
    pub fn head() -> (method: Self)
        ensures
            method@ == "HEAD"@,
    {
        Method::new("HEAD")
    }

    /// The name of the method.
    pub fn as_str(&self) -> (name: &str)
        ensures
            name@ == self@,
    {
        self.name.as_str()
    }

    /// Whether `other` is the same method.
    pub fn same(&self, other: &Method) -> (b: bool)
        ensures
            b == (self@ == other@),
    {
        self.name == other.name
    }

    /// A copy of the method.
    pub fn duplicate(&self) -> (copy: Self)
        ensures
            copy@ == self@,
    {
        Method { name: self.name.clone() }
    }
}

/// The names of `methods`, in order.
pub open spec fn names(methods: Seq<Method>) -> Seq<Seq<char>> {
    methods.map_values(|m: Method| m@)
}

/// The methods that a route answers to.
#[derive(Debug, Clone)]
pub enum Methods {
    /// Every method.
    Any,
    /// One method.
    One(Method),
    /// Several methods, none of them twice.
    More(Vec<Method>),
}

impl Methods {
    /// Whether no method is listed twice.
    pub open spec fn wf(&self) -> bool {
        self matches Methods::More(list) ==> names(list@).no_duplicates()
    }

    /// The names of the methods that are listed, or `None` where the route
    /// answers to every method.
    pub open spec fn listed(&self) -> Option<Set<Seq<char>>> {
        match self {
            Methods::Any => None,
            Methods::One(m) => Some(set![m@]),
            Methods::More(list) => Some(names(list@).to_set()),
        }
    }

    /// Lists `method` too. A route for every method becomes a route for
    /// `method` alone.
    pub fn add(self, method: Method) -> (out: Self)
        requires
            self.wf(),
        ensures
            out.wf(),
            out.listed() == Some(
                match self.listed() {
                    Some(set) => set.insert(method@),
                    None => set![method@],
                },
            ),
    {
        match self {
            Methods::Any => Methods::One(method),
            Methods::One(m) => {
                let mut list: Vec<Method> = Vec::new();
                let ghost first = m@;
                list.push(m);
                assert(names(list@) =~= seq![first]);
                let listed = insert_method(&mut list, method);
                proof {
                    Seq::<Seq<char>>::empty().lemma_push_to_set_commute(first);
                    assert(Seq::<Seq<char>>::empty().push(first) =~= seq![first]);
                    assert(Seq::<Seq<char>>::empty().to_set() =~= Set::<Seq<char>>::empty());
                    assert(seq![first].to_set() =~= set![first]);
                }
                Methods::More(list)
            },
            Methods::More(mut list) => {
                let listed = insert_method(&mut list, method);
                Methods::More(list)
            },
        }
    }
}

/// Whether `method` is among `list`.
pub fn contains_method(list: &Vec<Method>, method: &Method) -> (found: bool)
    ensures
        found == names(list@).contains(method@),
{
    let mut i: usize = 0;
    while i < list.len()
        invariant
            i <= list.len(),
            forall|j: int| 0 <= j < i ==> names(list@)[j] != method@,
        decreases list.len() - i,
    {
        if list[i].same(method) {
            assert(names(list@)[i as int] == method@);
            return true;
        }
        i = i + 1;
    }
    false
}

/// Puts `method` into `list` unless it is there already, as a set would.
/// Tells whether it was put in.
pub fn insert_method(list: &mut Vec<Method>, method: Method) -> (inserted: bool)
    requires
        names(old(list)@).no_duplicates(),
    ensures
        names(final(list)@).no_duplicates(),
        names(final(list)@).to_set() == names(old(list)@).to_set().insert(method@),
        inserted == !names(old(list)@).contains(method@),
        final(list)@ == (if inserted {
            old(list)@.push(method)
        } else {
            old(list)@
        }),
{
    if contains_method(list, &method) {
        assert(names(list@).to_set() =~= names(list@).to_set().insert(method@));
        false
    } else {
        proof {
            let before = names(list@);
            assert(names(list@.push(method)) =~= before.push(method@));
            before.lemma_push_to_set_commute(method@);
        }
        list.push(method);
        true
    }
}

/// A service with the methods it answers to.
#[derive(Debug, Clone)]
pub struct MethodRoute<S> {
    pub methods: Methods,
    pub service: S,
}

impl<S> MethodRoute<S> {
    /// `service` for every method.
    pub fn any(service: S) -> (route: Self)
        ensures
            route.methods.wf(),
            route.methods.listed() is None,
            route.service == service,
    {
        Self { methods: Methods::Any, service }
    }

    /// `service` for `method` alone.
    pub fn one(service: S, method: Method) -> (route: Self)
        ensures
            route.methods.wf(),
            route.methods.listed() == Some(set![method@]),
            route.service == service,
    {
        Self { methods: Methods::One(method), service }
    }

    /// `service` for the methods of `methods`; one that is listed twice
    /// counts once.
    pub fn more(service: S, methods: Vec<Method>) -> (route: Self)
        ensures
            route.methods.wf(),
            route.methods.listed() == Some(names(methods@).to_set()),
            route.service == service,
    {
        let mut list: Vec<Method> = Vec::new();
        let mut methods = methods;
        let ghost all = names(methods@);
        assert(names(list@) =~= Seq::<Seq<char>>::empty());
        while methods.len() > 0
            invariant
                names(list@).no_duplicates(),
                names(list@).to_set().union(names(methods@).to_set()) == all.to_set(),
            decreases methods.len(),
        {
            let ghost rest = names(methods@);
            let ghost done = names(list@).to_set();
            let method = methods.pop().unwrap();
            proof {
                assert(rest =~= names(methods@).push(method@));
                names(methods@).lemma_push_to_set_commute(method@);
                assert(done.insert(method@).union(names(methods@).to_set()) =~= done.union(
                    rest.to_set(),
                ));
            }
            let inserted = insert_method(&mut list, method);
        }
        proof {
            assert(names(methods@) =~= Seq::<Seq<char>>::empty());
            assert(names(list@).to_set() =~= all.to_set());
        }
        Self { methods: Methods::More(list), service }
    }

    /// Lists `method` too.
    pub fn add(self, method: Method) -> (route: Self)
        requires
            self.methods.wf(),
        ensures
            route.methods.wf(),
            route.methods.listed() == Some(
                match self.methods.listed() {
                    Some(set) => set.insert(method@),
                    None => set![method@],
                },
            ),
            route.service == self.service,
    {
        Self { methods: self.methods.add(method), service: self.service }
    }

    /// The same methods for the service that `middleware` makes of this
    /// one.
    pub fn with<T>(self, middleware: T) -> (route: MethodRoute<T::Service>) where T: Middleware<S>
        requires
            middleware.applies(self.service),
        ensures
            route.methods == self.methods,
            middleware.transforms(self.service, route.service),
    {
        MethodRoute { methods: self.methods, service: middleware.transform(self.service) }
    }
}

/// `service` for every method.
pub fn any<S>(service: S) -> (route: MethodRoute<S>)
    ensures
        route.methods.wf(),
        route.methods.listed() is None,
        route.service == service,
{
    MethodRoute::any(service)
}

/// `service` for `method` alone.
pub fn method<S>(service: S, name: Method) -> (route: MethodRoute<S>)
    ensures
        route.methods.wf(),
        route.methods.listed() == Some(set![name@]),
        route.service == service,
{
    MethodRoute::one(service, name)
}

/// `service` for `CONNECT` alone.
pub fn connect<S>(service: S) -> (route: MethodRoute<S>)
    ensures
        route.methods.wf(),
        route.methods.listed() == Some(set!["CONNECT"@]),
        route.service == service,
{
    method(service, Method::new("CONNECT"))
}

/// `service` for `DELETE` alone.
pub fn delete<S>(service: S) -> (route: MethodRoute<S>)
    ensures
        route.methods.wf(),
        route.methods.listed() == Some(set!["DELETE"@]),
        route.service == service,
{
    method(service, Method::new("DELETE"))
}

/// `service` for `GET` alone.
pub fn get<S>(service: S) -> (route: MethodRoute<S>)
    ensures
        route.methods.wf(),
        route.methods.listed() == Some(set!["GET"@]),
        route.service == service,
{
    method(service, Method::new("GET"))
}

/// `service` for `HEAD` alone.
pub fn head<S>(service: S) -> (route: MethodRoute<S>)
    ensures
        route.methods.wf(),
        route.methods.listed() == Some(set!["HEAD"@]),
        route.service == service,
{
    method(service, Method::new("HEAD"))
}

/// `service` for `OPTIONS` alone.
pub fn options<S>(service: S) -> (route: MethodRoute<S>)
    ensures
        route.methods.wf(),
        route.methods.listed() == Some(set!["OPTIONS"@]),
        route.service == service,
{
    method(service, Method::new("OPTIONS"))
}

/// `service` for `PATCH` alone.
pub fn patch<S>(service: S) -> (route: MethodRoute<S>)
    ensures
        route.methods.wf(),
        route.methods.listed() == Some(set!["PATCH"@]),
        route.service == service,
{
    method(service, Method::new("PATCH"))
}

/// `service` for `POST` alone.
pub fn post<S>(service: S) -> (route: MethodRoute<S>)
    ensures
        route.methods.wf(),
        route.methods.listed() == Some(set!["POST"@]),
        route.service == service,
{
    method(service, Method::new("POST"))
}

/// `service` for `PUT` alone.
pub fn put<S>(service: S) -> (route: MethodRoute<S>)
    ensures
        route.methods.wf(),
        route.methods.listed() == Some(set!["PUT"@]),
        route.service == service,
{
    method(service, Method::new("PUT"))
}

/// `service` for `TRACE` alone.
pub fn trace<S>(service: S) -> (route: MethodRoute<S>)
    ensures
        route.methods.wf(),
        route.methods.listed() == Some(set!["TRACE"@]),
        route.service == service,
{
    method(service, Method::new("TRACE"))
}

} // verus!
