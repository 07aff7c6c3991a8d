//! The services of one path, by method.

use crate::route::error::{RouteError, RouteErrorKind};
use crate::route::future::RouteFuture;
use crate::route::method::{names, Method, MethodRoute, Methods};
use crate::service::Service;
use crate::task::Operation;
use vstd::prelude::*;

verus! {

/// The services registered for one path: at most one per method, and at
/// most one for every method.
#[derive(Debug)]
pub struct MethodRouter<T> {
    pub map: Vec<(Method, T)>,
    pub any: Option<T>,
}

impl<T> MethodRouter<T> {
    /// The names of the methods that have a service of their own, in the
    /// order of registration.
    pub open spec fn keys(&self) -> Seq<Seq<char>> {
        self.map@.map_values(|entry: (Method, T)| entry.0@)
    }

    /// Whether no method is registered twice.
    pub open spec fn wf(&self) -> bool {
        self.keys().no_duplicates()
    }

    /// The service registered for the method `name` itself.
    pub open spec fn lookup(&self, name: Seq<char>) -> Option<T> {
        if self.keys().contains(name) {
            Some(self.map@[self.keys().index_of(name)].1)
        } else {
            None
        }
    }

    /// The service that answers the method `name`: the one registered for
    /// it; failing that, for `HEAD`, the one registered for `GET`; failing
    /// that, the one for every method.
    pub open spec fn answer(&self, name: Seq<char>) -> Option<T> {
        if self.lookup(name) is Some {
            self.lookup(name)
        } else if name == "HEAD"@ && self.lookup("GET"@) is Some {
            self.lookup("GET"@)
        } else {
            self.any
        }
    }

    /// No service at all.
    pub fn new() -> (router: Self)
        ensures
            router.wf(),
            router.map@.len() == 0,
            router.any is None,
    {
        let router = MethodRouter { map: Vec::new(), any: None };
        assert(router.keys() =~= Seq::<Seq<char>>::empty());
        router
    }

    /// Where `method` is registered.
    pub fn position(&self, method: &Method) -> (at: Option<usize>)
        ensures
            match at {
                Some(i) => i < self.map@.len() && self.keys()[i as int] == method@,
                None => !self.keys().contains(method@),
            },
    {
        let mut i: usize = 0;
        while i < self.map.len()
            invariant
                i <= self.map@.len(),
                forall|j: int| 0 <= j < i ==> self.keys()[j] != method@,
            decreases self.map@.len() - i,
        {
            if self.map[i].0.same(method) {
                return Some(i);
            }
            i = i + 1;
        }
        None
    }

    /// States that a registered method is found at its one place.
    pub proof fn lemma_lookup(&self, i: int)
        requires
            self.wf(),
            0 <= i < self.map@.len(),
        ensures
            self.lookup(self.keys()[i]) == Some(self.map@[i].1),
    {
        let name = self.keys()[i];
        assert(self.keys().contains(name));
        let j = self.keys().index_of(name);
        assert(self.keys()[j] == name);
    }

    /// Registers `service` for `method`, in place of the service that was
    /// registered for it before, if there was one. The other methods keep
    /// their services.
    pub fn add(&mut self, service: T, method: Method)
        requires
            old(self).wf(),
        ensures
            final(self).wf(),
            final(self).any == old(self).any,
            final(self).lookup(method@) == Some(service),
            forall|name: Seq<char>|
                name != method@ ==> final(self).lookup(name) == old(self).lookup(name),
    {
        let ghost wanted = method@;
        match self.position(&method) {
            Some(i) => {
                self.map.set(i, (method, service));
                proof {
                    assert(self.keys() =~= old(self).keys());
                    self.lemma_lookup(i as int);
                    assert forall|name: Seq<char>| name != wanted implies self.lookup(name) == old(self).lookup(name) by {
                        if self.keys().contains(name) {
                            let j = self.keys().index_of(name);
                            assert(self.keys()[j] == name);
                            assert(j != i);
                        }
                    }
                }
            },
            None => {
                self.map.push((method, service));
                proof {
                    assert(self.keys() =~= old(self).keys().push(wanted));
                    self.lemma_lookup(old(self).map@.len() as int);
                    assert forall|name: Seq<char>| name != wanted implies self.lookup(name) == old(self).lookup(name) by {
                        if old(self).keys().contains(name) {
                            let j = old(self).keys().index_of(name);
                            assert(old(self).keys()[j] == name);
                            assert(self.keys()[j] == name);
                            self.lemma_lookup(j);
                            old(self).lemma_lookup(j);
                        } else if self.keys().contains(name) {
                            let j = self.keys().index_of(name);
                            assert(self.keys()[j] == name);
                            assert(j < old(self).keys().len());
                            assert(old(self).keys()[j] == name);
                        }
                    }
                }
            },
        }
    }

    /// Registers `service` for every method, in place of the one that was
    /// registered so before.
    pub fn add_any(&mut self, service: T)
        ensures
            final(self).map == old(self).map,
            final(self).any == Some(service),
    {
        self.any = Some(service);
    }

    /// Whether `method` has a service of its own.
    pub fn contains(&self, method: &Method) -> (b: bool)
        ensures
            b == self.keys().contains(method@),
            self.wf() ==> b == (self.lookup(method@) is Some),
    {
        self.position(method).is_some()
    }

    /// Whether a service is registered for every method.
    pub fn contains_any(&self) -> (b: bool)
        ensures
            b == (self.any is Some),
    {
        self.any.is_some()
    }

    /// The service that answers `method`: see [`MethodRouter::answer`].
    /// `None` means that the method is not allowed on this path.
    pub fn find(&self, method: &Method) -> (found: Option<&T>)
        requires
            self.wf(),
        ensures
            match found {
                Some(service) => self.answer(method@) == Some(*service),
                None => self.answer(method@) is None,
            },
    {
        if let Some(i) = self.position(method) {
            proof {
                self.lemma_lookup(i as int);
            }
            return Some(&self.map[i].1);
        }
        if method.same(&Method::head()) {
            if let Some(i) = self.position(&Method::get()) {
                proof {
                    self.lemma_lookup(i as int);
                }
                return Some(&self.map[i].1);
            }
        }
        self.any.as_ref()
    }
}

impl<T> MethodRouter<T> {
    /// Hands `req` to the one service that answers `method`, unchanged,
    /// and gives the operation that this service starts. Where no service
    /// answers, none is called: the operation resolves at its first pull to
    /// the failure `MethodNotAllowed`, which holds `req`.
    pub fn call<'f, Req>(&'f self, method: &Method, req: Req) -> (fut: RouteFuture<
        T::Future,
        Req,
    >) where T: Service<'f, Req>
        requires
            self.wf(),
            self.answer(method@) matches Some(service) ==> service.accepts(req),
        ensures
            match self.answer(method@) {
                Some(service) => {
                    &&& fut is A
                    &&& service.starts(req, fut->fut)
                    &&& (fut->fut).pollable()
                    &&& forall|out: Result<T::Response, T::Error>|
                        (fut->fut).admits(out) ==> service.responds(req, out)
                },
                None => fut == (RouteFuture::<T::Future, Req>::B {
                    err: Some(RouteError { kind: RouteErrorKind::MethodNotAllowed, request: req }),
                }),
            },
    {
        match self.find(method) {
            Some(service) => RouteFuture::A { fut: service.call(req) },
            None => RouteFuture::B { err: Some(RouteError::method_not_allowed(req)) },
        }
    }
}

impl<T> Default for MethodRouter<T> {
    fn default() -> (router: Self)
        ensures
            router.wf(),
            router.map@.len() == 0,
            router.any is None,
    {
        MethodRouter::new()
    }
}

/// What can be registered in a [`MethodRouter`]: services with their
/// methods, to be merged into what is registered already.
pub trait MergeToMethodRouter<T>: Sized {
    /// Whether the value is well formed.
    spec fn mergeable(&self) -> bool;

    /// Whether the value claims the method `name`, or, for `None`, every
    /// method.
    spec fn claims(&self, slot: Option<Seq<char>>) -> bool;

    /// Whether `after` is `before` with the services of the value
    /// registered.
    spec fn merged(&self, before: MethodRouter<T>, after: MethodRouter<T>) -> bool;

    /// Registers the services of the value in `router`, unless one of its
    /// methods, or its claim to every method, is taken there already. In
    /// that case nothing is registered and the conflict is named: the
    /// method, or `None` for the claim to every method, which is named only
    /// where no method conflicts.
    fn merge_to(self, router: &mut MethodRouter<T>) -> (res: Result<(), Option<Method>>)
        requires
            self.mergeable(),
            old(router).wf(),
        ensures
            final(router).wf(),
            match res {
                Ok(()) => {
                    &&& forall|name: Seq<char>| !(#[trigger] self.claims(Some(name)) && old(router).keys().contains(name))
                    &&& !(self.claims(None) && old(router).any is Some)
                    &&& self.merged(*old(router), *final(router))
                },
                Err(Some(method)) => {
                    &&& self.claims(Some(method@))
                    &&& old(router).keys().contains(method@)
                    &&& *final(router) == *old(router)
                },
                Err(None) => {
                    &&& self.claims(None)
                    &&& old(router).any is Some
                    &&& forall|name: Seq<char>| !(#[trigger] self.claims(Some(name)) && old(router).keys().contains(name))
                    &&& *final(router) == *old(router)
                },
            },
    ;
}

impl<T> MergeToMethodRouter<T> for MethodRouter<T> {
    open spec fn mergeable(&self) -> bool {
        self.wf()
    }

    open spec fn claims(&self, slot: Option<Seq<char>>) -> bool {
        match slot {
            Some(name) => self.keys().contains(name),
            None => self.any is Some,
        }
    }

    open spec fn merged(&self, before: MethodRouter<T>, after: MethodRouter<T>) -> bool {
        &&& after.any == (if self.any is Some {
            self.any
        } else {
            before.any
        })
        &&& forall|name: Seq<char>| #[trigger]
            after.lookup(name) == (if self.lookup(name) is Some {
                self.lookup(name)
            } else {
                before.lookup(name)
            })
    }

    fn merge_to(self, router: &mut MethodRouter<T>) -> (res: Result<(), Option<Method>>) {
        let mut i: usize = 0;
        while i < self.map.len()
            invariant
                i <= self.map@.len(),
                *router == *old(router),
                router.wf(),
                forall|j: int| 0 <= j < i ==> !router.keys().contains(#[trigger] self.keys()[j]),
            decreases self.map@.len() - i,
        {
            if router.contains(&self.map[i].0) {
                assert(self.keys()[i as int] == self.map@[i as int].0@);
                return Err(Some(self.map[i].0.duplicate()));
            }
            i = i + 1;
        }
        let MethodRouter { map, any } = self;
        let ghost source = self;
        if let Some(service) = any {
            if router.contains_any() {
                return Err(None);
            }
            router.add_any(service);
        }
        let mut map = map;
        let ghost all = map@;
        assert(router.keys() =~= old(router).keys());
        assert forall|name: Seq<char>| router.lookup(name) == old(router).lookup(name) by {}
        while map.len() > 0
            invariant
                router.wf(),
                source.wf(),
                source.map@ == all,
                map@.len() <= all.len(),
                map@ == all.take(map@.len() as int),
                router.any == (if source.any is Some {
                    source.any
                } else {
                    old(router).any
                }),
                forall|j: int|
                    0 <= j < all.len() ==> !old(router).keys().contains(#[trigger] source.keys()[j]),
                forall|name: Seq<char>| #[trigger]
                    router.lookup(name) == (if exists|j: int|
                        map@.len() <= j < all.len() && source.keys()[j] == name {
                        source.lookup(name)
                    } else {
                        old(router).lookup(name)
                    }),
            decreases map@.len(),
        {
            let ghost before = *router;
            let ghost n = map@.len() - 1;
            let (method, service) = map.pop().unwrap();
            proof {
                assert(all[n] == (method, service));
                assert(source.keys()[n] == method@);
                source.lemma_lookup(n);
            }
            router.add(service, method);
            proof {
                assert forall|name: Seq<char>| #[trigger]
                    router.lookup(name) == (if exists|j: int|
                        map@.len() <= j < all.len() && source.keys()[j] == name {
                        source.lookup(name)
                    } else {
                        old(router).lookup(name)
                    }) by {
                    if name == source.keys()[n] {
                        assert(map@.len() <= n < all.len() && source.keys()[n] == name);
                    } else {
                        assert(router.lookup(name) == before.lookup(name));
                        if exists|j: int| map@.len() <= j < all.len() && source.keys()[j] == name {
                            let j = choose|j: int|
                                map@.len() <= j < all.len() && source.keys()[j] == name;
                            assert(j != n);
                            assert(n + 1 <= j < all.len() && source.keys()[j] == name);
                        }
                    }
                }
            }
        }
        proof {
            assert forall|name: Seq<char>| #[trigger]
                router.lookup(name) == (if source.lookup(name) is Some {
                    source.lookup(name)
                } else {
                    old(router).lookup(name)
                }) by {
                if source.keys().contains(name) {
                    let j = source.keys().index_of(name);
                    assert(0 <= j < all.len() && source.keys()[j] == name);
                }
            }
        }
        Ok(())
    }
}

/// Whether `found` is a service, and a clone of `service`.
pub open spec fn holds_clone<T: Clone>(service: T, found: Option<T>) -> bool {
    found matches Some(copy) && cloned(service, copy)
}

impl<T: Clone> MergeToMethodRouter<T> for MethodRoute<T> {
    open spec fn mergeable(&self) -> bool {
        self.methods.wf()
    }

    open spec fn claims(&self, slot: Option<Seq<char>>) -> bool {
        match slot {
            Some(name) => self.methods.listed() matches Some(set) && set.contains(name),
            None => self.methods.listed() is None,
        }
    }

    open spec fn merged(&self, before: MethodRouter<T>, after: MethodRouter<T>) -> bool {
        match self.methods {
            Methods::Any => after.map == before.map && after.any == Some(self.service),
            Methods::One(method) => {
                &&& after.any == before.any
                &&& after.lookup(method@) == Some(self.service)
                &&& forall|name: Seq<char>|
                    name != method@ ==> #[trigger] after.lookup(name) == before.lookup(name)
            },
            Methods::More(list) => {
                &&& after.any == before.any
                &&& forall|name: Seq<char>|
                    !names(list@).contains(name) ==> #[trigger] after.lookup(name)
                        == before.lookup(name)
                &&& forall|name: Seq<char>|
                    names(list@).contains(name) ==> holds_clone(
                        self.service,
                        #[trigger] after.lookup(name),
                    )
            },
        }
    }

    fn merge_to(self, router: &mut MethodRouter<T>) -> (res: Result<(), Option<Method>>) {
        let MethodRoute { methods, service } = self;
        match methods {
            Methods::Any => {
                if router.contains_any() {
                    return Err(None);
                }
                router.add_any(service);
                assert(router.keys() =~= old(router).keys());
            },
            Methods::One(method) => {
                if router.contains(&method) {
                    return Err(Some(method));
                }
                router.add(service, method);
            },
            Methods::More(list) => {
                let mut i: usize = 0;
                while i < list.len()
                    invariant
                        i <= list@.len(),
                        self.methods == Methods::More(list),
                        *router == *old(router),
                        router.wf(),
                        forall|j: int|
                            0 <= j < i ==> !router.keys().contains(#[trigger] names(list@)[j]),
                    decreases list@.len() - i,
                {
                    if router.contains(&list[i]) {
                        assert(names(list@)[i as int] == list@[i as int]@);
                        assert(names(list@).contains(list@[i as int]@));
                        assert(names(list@).to_set().contains(list@[i as int]@));
                        return Err(Some(list[i].duplicate()));
                    }
                    i = i + 1;
                }
                let mut list = list;
                let ghost all = names(list@);
                while list.len() > 0
                    invariant
                        router.wf(),
                        router.any == old(router).any,
                        list@.len() <= all.len(),
                        names(list@) == all.take(list@.len() as int),
                        forall|name: Seq<char>|
                            !all.contains(name) ==> #[trigger] router.lookup(name) == old(router).lookup(name),
                        forall|j: int|
                            list@.len() <= j < all.len() ==> holds_clone(
                                service,
                                #[trigger] router.lookup(all[j]),
                            ),
                    decreases list@.len(),
                {
                    let ghost before = *router;
                    let ghost n = list@.len() - 1;
                    let ghost rest = names(list@);
                    let method = list.pop().unwrap();
                    proof {
                        assert(rest[n] == method@);
                        assert(all[n] == method@);
                        assert(names(list@) =~= all.take(list@.len() as int));
                    }
                    router.add(service.clone(), method);
                    proof {
                        assert forall|j: int| list@.len() <= j < all.len() implies holds_clone(
                            service,
                            #[trigger] router.lookup(all[j]),
                        ) by {
                            if all[j] != all[n] {
                                assert(router.lookup(all[j]) == before.lookup(all[j]));
                            }
                        }
                        assert forall|name: Seq<char>| !all.contains(name) implies #[trigger] router.lookup(
                            name,
                        ) == old(router).lookup(name) by {
                            assert(name != all[n]);
                            assert(router.lookup(name) == before.lookup(name));
                        }
                    }
                }
                proof {
                    assert forall|name: Seq<char>| all.contains(name) implies holds_clone(
                        service,
                        #[trigger] router.lookup(name),
                    ) by {
                        let j = all.index_of(name);
                        assert(all[j] == name);
                    }
                }
            },
        }
        Ok(())
    }
}

} // verus!
