//! Providers: the pluggable pieces a tunnel is assembled from.
//!
//! A provider turns an argument into a result: a listener from an address, a
//! connection from an address, a verdict from the first bytes of a stream.
//! What a given provider may answer is its own business; it states it in
//! [`Provider::yields`], and the wrappers here pass that statement on.

use vstd::prelude::*;
use std::sync::Arc;
use crate::address::Address;
use crate::error::Error;

verus! {

/// Something that can be called with a `C`.
pub trait Provider<C> {
    type Output;

    /// Whether `out` is an answer this provider may give to `arg`. A
    /// provider that says nothing of itself may give any answer.
    open spec fn yields(&self, arg: C, out: Self::Output) -> bool {
        true
    }

    fn call(&self, arg: C) -> (out: Self::Output)
        ensures
            self.yields(arg, out),
    ;
}

/// A provider whose type has been forgotten.
trait Erased<A, O>: Send + Sync {
    spec fn answers(&self, arg: A, out: Result<O, Error>) -> bool;

    fn invoke(&self, arg: A) -> (out: Result<O, Error>)
        ensures
            self.answers(arg, out),
    ;
}

struct Adapter<F> {
    inner: F,
}

impl<A, O, F: Provider<A, Output = Result<O, Error>> + Send + Sync> Erased<A, O> for Adapter<F> {
    closed spec fn answers(&self, arg: A, out: Result<O, Error>) -> bool {
        self.inner.yields(arg, out)
    }

    fn invoke(&self, arg: A) -> (out: Result<O, Error>) {
        self.inner.call(arg)
    }
}

/// A shared provider from `A` to `O`, whatever its type.
#[verifier::reject_recursive_types(A)]
#[verifier::reject_recursive_types(O)]
pub struct ProviderWrapper<A, O> {
    provider: Arc<Box<dyn Erased<A, O>>>,
}

impl<A, O> ProviderWrapper<A, O> {
    /// Whether the wrapped provider may answer `out` to `arg`.
    pub closed spec fn allows(&self, arg: A, out: Result<O, Error>) -> bool {
        self.provider.answers(arg, out)
    }

    /// Wraps `provider`; the wrapper answers what `provider` answers.
    pub fn wrap<F>(provider: F) -> (w: Self) where
        F: Provider<A, Output = Result<O, Error>> + Send + Sync + 'static,

        ensures
            forall|arg: A, out: Result<O, Error>|
                #[trigger] w.allows(arg, out) == provider.yields(arg, out),
    {
        Self { provider: Arc::new(Box::new(Adapter { inner: provider })) }
    }

}

impl<A, O> Clone for ProviderWrapper<A, O> {
    /// Another handle on the same provider.
    fn clone(&self) -> (w: Self)
        ensures
            forall|arg: A, out: Result<O, Error>|
                #[trigger] w.allows(arg, out) == self.allows(arg, out),
    {
        Self { provider: self.provider.clone() }
    }
}

impl<A, O> Provider<A> for ProviderWrapper<A, O> {
    type Output = Result<O, Error>;

    open spec fn yields(&self, arg: A, out: Result<O, Error>) -> bool {
        self.allows(arg, out)
    }

    fn call(&self, arg: A) -> (out: Result<O, Error>) {
        self.provider.invoke(arg)
    }
}

/// A shared provider that hands back what it was given, changed or checked.
#[verifier::reject_recursive_types(A)]
pub struct ProviderTransfer<A> {
    provider: Arc<Box<dyn Erased<A, A>>>,
}

impl<A> ProviderTransfer<A> {
    /// Whether the wrapped provider may answer `out` to `arg`.
    pub closed spec fn allows(&self, arg: A, out: Result<A, Error>) -> bool {
        self.provider.answers(arg, out)
    }

    /// Wraps `provider`; the wrapper answers what `provider` answers.
    pub fn wrap<F>(provider: F) -> (w: Self) where
        F: Provider<A, Output = Result<A, Error>> + Send + Sync + 'static,

        ensures
            forall|arg: A, out: Result<A, Error>|
                #[trigger] w.allows(arg, out) == provider.yields(arg, out),
    {
        Self { provider: Arc::new(Box::new(Adapter { inner: provider })) }
    }
}

impl<A> Clone for ProviderTransfer<A> {
    /// Another handle on the same provider.
    fn clone(&self) -> (w: Self)
        ensures
            forall|arg: A, out: Result<A, Error>|
                #[trigger] w.allows(arg, out) == self.allows(arg, out),
    {
        Self { provider: self.provider.clone() }
    }
}

impl<A> Provider<A> for ProviderTransfer<A> {
    type Output = Result<A, Error>;

    open spec fn yields(&self, arg: A, out: Result<A, Error>) -> bool {
        self.allows(arg, out)
    }

    fn call(&self, arg: A) -> (out: Result<A, Error>) {
        self.provider.invoke(arg)
    }
}

/// Two transfers, one after the other: the second works on what the first
/// hands back, and a failure of the first is the failure of the chain.
#[verifier::reject_recursive_types(A)]
pub struct ProviderChain<A> {
    self_provider: ProviderTransfer<A>,
    other_provider: ProviderTransfer<A>,
}

impl<A> ProviderChain<A> {
    /// The transfer that is called first.
    pub closed spec fn first(&self) -> ProviderTransfer<A> {
        self.self_provider
    }

    /// The transfer that is called on what the first hands back.
    pub closed spec fn second(&self) -> ProviderTransfer<A> {
        self.other_provider
    }

    /// The chain that calls `provider`, then `next`.
    pub fn chain<F1, F2>(provider: F1, next: F2) -> (c: Self) where
        F1: Provider<A, Output = Result<A, Error>> + Send + Sync + 'static,
        F2: Provider<A, Output = Result<A, Error>> + Send + Sync + 'static,

        ensures
            forall|arg: A, out: Result<A, Error>|
                #[trigger] c.first().allows(arg, out) == provider.yields(arg, out),
            forall|arg: A, out: Result<A, Error>|
                #[trigger] c.second().allows(arg, out) == next.yields(arg, out),
    {
        Self {
            self_provider: ProviderTransfer::wrap(provider),
            other_provider: ProviderTransfer::wrap(next),
        }
    }
}

impl<A> Clone for ProviderChain<A> {
    /// Another handle on the same two transfers.
    fn clone(&self) -> (c: Self)
        ensures
            forall|arg: A, out: Result<A, Error>|
                #[trigger] c.first().allows(arg, out) == self.first().allows(arg, out),
            forall|arg: A, out: Result<A, Error>|
                #[trigger] c.second().allows(arg, out) == self.second().allows(arg, out),
    {
        Self {
            self_provider: self.self_provider.clone(),
            other_provider: self.other_provider.clone(),
        }
    }
}

impl<A> Provider<A> for ProviderChain<A> {
    type Output = Result<A, Error>;

    /// The chain answers what the second transfer answers to something the
    /// first handed back, or the failure of the first.
    open spec fn yields(&self, arg: A, out: Result<A, Error>) -> bool {
        ||| exists|mid: A|
            #[trigger] self.first().allows(arg, Ok(mid)) && self.second().allows(mid, out)
        ||| exists|e: Error| #[trigger] self.first().allows(arg, Err(e)) && out == Err::<A, Error>(e)
    }

    fn call(&self, arg: A) -> (out: Result<A, Error>) {
        match self.self_provider.call(arg) {
            Ok(mid) => {
                let out = self.other_provider.call(mid);
                assert(self.first().allows(arg, Ok(mid)) && self.second().allows(mid, out));
                out
            },
            Err(e) => {
                assert(self.first().allows(arg, Err(e)));
                Err(e)
            },
        }
    }
}

/// What a control client dials with: the server it belongs to and the
/// provider of its connections.
pub struct ClientProvider<C> {
    pub server_socket: Address,
    pub connect_provider: Arc<C>,
}

impl<C: Provider<Address>> ClientProvider<C> {
    /// This provider with `socket` as its server.
    pub fn set_server_socket(self, socket: Address) -> (p: Self)
        ensures
            p.server_socket == socket,
            p.connect_provider == self.connect_provider,
    {
        let mut p = self;
        p.server_socket = socket;
        p
    }

    /// The server this client belongs to.
    pub fn default_socket(&self) -> (socket: &Address)
        ensures
            *socket == self.server_socket,
    {
        &self.server_socket
    }

    /// Dials `socket` with the connection provider.
    pub fn connect(&self, socket: Address) -> (out: C::Output)
        ensures
            self.connect_provider.yields(socket, out),
    {
        self.connect_provider.call(socket)
    }
}

impl<C: Provider<Address>> Provider<Address> for ClientProvider<C> {
    type Output = C::Output;

    open spec fn yields(&self, arg: Address, out: C::Output) -> bool {
        self.connect_provider.yields(arg, out)
    }

    fn call(&self, arg: Address) -> (out: C::Output) {
        self.connect_provider.call(arg)
    }
}

impl<C> Clone for ClientProvider<C> {
    fn clone(&self) -> (p: Self)
        ensures
            p == *self,
    {
        Self {
            server_socket: self.server_socket,
            connect_provider: self.connect_provider.clone(),
        }
    }
}

/// What a server works with: the provider of its listeners and the provider
/// of its outgoing connections.
pub struct ServerProvider<S, C> {
    pub accepter_provider: Arc<S>,
    pub connector_provider: Arc<C>,
}

impl<S: Provider<Address>, C: Provider<Address>> ServerProvider<S, C> {
    /// Opens a listener on `socket` with the listener provider.
    pub fn bind(&self, socket: Address) -> (out: S::Output)
        ensures
            self.accepter_provider.yields(socket, out),
    {
        self.accepter_provider.call(socket)
    }

    /// Dials `socket` with the connection provider.
    pub fn connect(&self, socket: Address) -> (out: C::Output)
        ensures
            self.connector_provider.yields(socket, out),
    {
        self.connector_provider.call(socket)
    }
}

impl<S, C> Clone for ServerProvider<S, C> {
    fn clone(&self) -> (p: Self)
        ensures
            p == *self,
    {
        Self {
            accepter_provider: self.accepter_provider.clone(),
            connector_provider: self.connector_provider.clone(),
        }
    }
}

} // verus!
