use crate::context::{connection_kind, precondition_holds, ConnectionKind, RequestData};
use crate::error::PointercrateError;
use crate::pagination::Paginator;
use std::marker::PhantomData;
use vstd::prelude::*;

verus! {

/// A request for the overview of the list: every demon and the lists'
/// staff, read on a plain connection.
#[derive(Debug)]
pub struct GetDemonlistOverview;

/// A request to fetch the `G` stored under `Key`.
#[derive(Debug)]
pub struct GetMessage<Key, G>(pub Key, pub RequestData, pub PhantomData<G>);

/// A request to create a `P` from the input `T`.
#[derive(Debug)]
pub struct PostMessage<T, P>(pub T, pub RequestData, pub PhantomData<P>);

/// A request to delete the `D` stored under `Key`.
#[derive(Debug)]
pub struct DeleteMessage<Key, D>(pub Key, pub RequestData, pub PhantomData<D>);

/// A request to apply the change `H` to the `P` stored under `Key`.
#[derive(Debug)]
pub struct PatchMessage<Key, P, H>(pub Key, pub H, pub RequestData, pub PhantomData<P>);

/// A request for one page of `P`s, with the base of the navigation links.
#[derive(Debug)]
pub struct PaginateMessage<P>(pub Paginator, pub String, pub RequestData, pub PhantomData<P>);

/// What a patch does once its target was read inside the transaction:
/// `Ok` applies the change, an error rolls back with nothing changed.
pub open spec fn patch_outcome(current: Option<u64>, data: RequestData) -> Result<(), PointercrateError> {
    match current {
        Option::None => Err(PointercrateError::ModelNotFound),
        Option::Some(v) => if precondition_holds(data, v) {
            Ok(())
        } else {
            Err(PointercrateError::PreconditionFailed)
        },
    }
}

/// What a delete does once its target was looked up inside the transaction:
/// `Ok` deletes it.
pub open spec fn delete_outcome(found: bool) -> Result<(), PointercrateError> {
    if found {
        Ok(())
    } else {
        Err(PointercrateError::ModelNotFound)
    }
}

impl<Key, G> GetMessage<Key, G> {
    pub fn new(key: Key, data: RequestData) -> (r: Self)
        ensures
            r.0 == key,
            r.1 == data,
    {
        GetMessage(key, data, PhantomData)
    }

    /// The connection this request runs on.
    pub fn connection(&self) -> (r: ConnectionKind)
        ensures
            r == connection_kind(self.1),
    {
        self.1.connection_for()
    }
}

impl<T, P> PostMessage<T, P> {
    pub fn new(input: T, data: RequestData) -> (r: Self)
        ensures
            r.0 == input,
            r.1 == data,
    {
        PostMessage(input, data, PhantomData)
    }

    /// The connection this request runs on.
    pub fn connection(&self) -> (r: ConnectionKind)
        ensures
            r == connection_kind(self.1),
    {
        self.1.connection_for()
    }
}

impl<Key, D> DeleteMessage<Key, D> {
    pub fn new(key: Key, data: RequestData) -> (r: Self)
        ensures
            r.0 == key,
            r.1 == data,
    {
        DeleteMessage(key, data, PhantomData)
    }

    /// The connection this request runs on.
    pub fn connection(&self) -> (r: ConnectionKind)
        ensures
            r == connection_kind(self.1),
    {
        self.1.connection_for()
    }

    /// Decides, inside the transaction, whether to delete, given whether
    /// the target was found.
    pub fn decide(&self, found: bool) -> (r: Result<(), PointercrateError>)
        ensures
            r == delete_outcome(found),
    {
        if found {
            Ok(())
        } else {
            Err(PointercrateError::ModelNotFound)
        }
    }
}

impl<Key, P, H> PatchMessage<Key, P, H> {
    pub fn new(key: Key, fix: H, request_data: RequestData) -> (r: Self)
        ensures
            r.0 == key,
            r.1 == fix,
            r.2 == request_data,
    {
        PatchMessage(key, fix, request_data, PhantomData)
    }

    /// The connection this request runs on.
    pub fn connection(&self) -> (r: ConnectionKind)
        ensures
            r == connection_kind(self.2),
    {
        self.2.connection_for()
    }

    /// Decides, inside the transaction, whether to apply the change, given
    /// the version of the target as read there (`None` if it is gone).
    pub fn decide(&self, current: Option<u64>) -> (r: Result<(), PointercrateError>)
        ensures
            r == patch_outcome(current, self.2),
    {
        match current {
            None => Err(PointercrateError::ModelNotFound),
            Some(v) => self.2.check_if_match(v),
        }
    }
}

impl<P> PaginateMessage<P> {
    pub fn new(paginator: Paginator, base: String, data: RequestData) -> (r: Self)
        ensures
            r.0 == paginator,
            r.1 == base,
            r.2 == data,
    {
        PaginateMessage(paginator, base, data, PhantomData)
    }

    /// The connection this request runs on.
    pub fn connection(&self) -> (r: ConnectionKind)
        ensures
            r == connection_kind(self.2),
    {
        self.2.connection_for()
    }
}

/// The version of the object under `key`, if there is one.
pub open spec fn version_in<K, V>(store: Map<K, V>, version: spec_fn(V) -> u64, key: K) -> Option<u64> {
    if store.contains_key(key) {
        Option::Some(version(store[key]))
    } else {
        Option::None
    }
}

/// A patch run as one transaction on a store: read the target, decide, and
/// write `patched` only if the decision allows it.
pub open spec fn patch_txn<K, V>(
    store: Map<K, V>,
    version: spec_fn(V) -> u64,
    key: K,
    data: RequestData,
    patched: V,
) -> (Map<K, V>, Result<(), PointercrateError>) {
    match patch_outcome(version_in(store, version, key), data) {
        Ok(_) => (store.insert(key, patched), Ok(())),
        Err(e) => (store, Err(e)),
    }
}

/// A delete run as one transaction on a store: look the target up and
/// remove it only if it is there.
pub open spec fn delete_txn<K, V>(store: Map<K, V>, key: K) -> (Map<K, V>, Result<(), PointercrateError>) {
    match delete_outcome(store.contains_key(key)) {
        Ok(_) => (store.remove(key), Ok(())),
        Err(e) => (store, Err(e)),
    }
}

/// A patch whose version marker differs from the object's current version
/// fails with `PreconditionFailed` and leaves the store as it was.
pub proof fn lemma_patch_precondition<K, V>(
    store: Map<K, V>,
    version: spec_fn(V) -> u64,
    key: K,
    user: Option<crate::context::Me>,
    marker: u64,
    patched: V,
)
    requires
        store.contains_key(key),
        marker != version(store[key]),
    ensures
        patch_txn(store, version, key, RequestData::External { user, if_match: Option::Some(marker) }, patched)
            == (store, Err::<(), PointercrateError>(PointercrateError::PreconditionFailed)),
{
}

/// Two deletes of the same key, run one transaction after the other in
/// either order, succeed at most once; when the first succeeds, the second
/// finds nothing.
pub proof fn lemma_delete_at_most_once<K, V>(store: Map<K, V>, key: K)
    ensures
        !(delete_txn(store, key).1 is Ok && delete_txn(delete_txn(store, key).0, key).1 is Ok),
        delete_txn(store, key).1 is Ok ==> delete_txn(delete_txn(store, key).0, key).1 == Err::<
            (),
            PointercrateError,
        >(PointercrateError::ModelNotFound),
        store.contains_key(key) ==> delete_txn(store, key).1 is Ok,
{
}

} // verus!
