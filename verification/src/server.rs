//! The session that serves one control client: its wait table, and every
//! decision it takes between two pieces of work of the runtime.

use vstd::prelude::*;
use vstd::string::StringExecFns;
use std::sync::Arc;
use std::time::Duration;
use async_channel::{Receiver, Sender};
use crate::address::Address;
use crate::converter::Unpacker;
use crate::error::{Error, ErrorView};
use crate::fallback::{Fallback, FallbackView, DEFAULT_LIMIT};
use crate::outbox::{Outbox, OutboxView};
use crate::packet::Packet;
use crate::protocol::{parse_message, Message, MessageView};
use crate::provider::{Provider, ProviderWrapper};
use crate::slot::{close_slot, open_slot};
use crate::wait::{all_live, is_next_free, WaitFor};

verus! {

/// Something that knows the two ends of its connection. What an
/// implementation may answer is its own business; it states it in
/// `is_peer` and `is_local`, and one that states nothing may answer
/// anything.
pub trait NetSocket {
    /// Whether `out` is an answer that `peer_addr` may give.
    open spec fn is_peer(&self, out: Result<Address, Error>) -> bool {
        true
    }

    /// Whether `out` is an answer that `local_addr` may give.
    open spec fn is_local(&self, out: Result<Address, Error>) -> bool {
        true
    }

    fn peer_addr(&self) -> (out: Result<Address, Error>)
        ensures
            self.is_peer(out),
    ;

    fn local_addr(&self) -> (out: Result<Address, Error>)
        ensures
            self.is_local(out),
    ;
}

impl<S: NetSocket> NetSocket for Fallback<S> {
    open spec fn is_peer(&self, out: Result<Address, Error>) -> bool {
        self.target().is_peer(out)
    }

    open spec fn is_local(&self, out: Result<Address, Error>) -> bool {
        self.target().is_local(out)
    }

    fn peer_addr(&self) -> (out: Result<Address, Error>) {
        self.get_ref().peer_addr()
    }

    fn local_addr(&self) -> (out: Result<Address, Error>) {
        self.get_ref().local_addr()
    }
}

/// What is fixed for the life of a session.
#[derive(Debug, Clone, Copy)]
pub struct Config {
    /// Whether targets are announced to the client as mixed.
    pub is_mixed: bool,
    /// How long a visitor waits for its mapper stream.
    pub max_wait_time: Duration,
    /// The pause between two heartbeats.
    pub heartbeat_timeout: Duration,
    pub read_timeout: Option<Duration>,
    pub write_timeout: Option<Duration>,
    /// Whether a visitor whose first bytes outgrow the record is refused
    /// rather than forwarded without them.
    pub fallback_strict_mode: bool,
}

/// The text that `Debug` of std gives for a `Duration`.
#[verifier::external_body]
fn duration_text(d: &Duration) -> (text: String) {
    format!("{:?}", d)
}

/// The text that `Debug` of std gives for a `Duration` that may be missing.
#[verifier::external_body]
fn optional_duration_text(d: &Option<Duration>) -> (text: String) {
    format!("{:?}", d)
}

impl Config {
    /// Whether `text` is a description of a configuration whose four times
    /// are written `read`, `write`, `wait` and `beat`.
    pub open spec fn described(
        text: Seq<char>,
        read: Seq<char>,
        write: Seq<char>,
        wait: Seq<char>,
        beat: Seq<char>,
    ) -> bool {
        text == "read_timeout = "@ + read + ", write_timeout = "@ + write + ", max_wait_time="@
            + wait + ", heartbeat_time="@ + beat
    }

    /// One line that names the four times of the configuration, each with
    /// the text that std gives for it.
    pub fn describe(&self) -> (text: String)
        ensures
            exists|read: Seq<char>, write: Seq<char>, wait: Seq<char>, beat: Seq<char>|
                Config::described(text@, read, write, wait, beat),
    {
        let read = optional_duration_text(&self.read_timeout);
        let write = optional_duration_text(&self.write_timeout);
        let wait = duration_text(&self.max_wait_time);
        let beat = duration_text(&self.heartbeat_timeout);
        let mut text = String::from_str("read_timeout = ");
        text.append(read.as_str());
        text.append(", write_timeout = ");
        text.append(write.as_str());
        text.append(", max_wait_time=");
        text.append(wait.as_str());
        text.append(", heartbeat_time=");
        text.append(beat.as_str());
        assert(Config::described(text@, read@, write@, wait@, beat@));
        text
    }
}

/// A call that has been decided on and not yet made: the handler of a
/// visitor that takes care of its own traffic, and the stream it is to work
/// on.
#[verifier::reject_recursive_types(A)]
#[verifier::reject_recursive_types(O)]
pub struct Deferred<A, O> {
    pub provider: ProviderWrapper<A, O>,
    pub arg: A,
}

impl<A, O> Deferred<A, O> {
    /// Makes the call.
    pub fn run(self) -> (out: Result<O, Error>)
        ensures
            self.provider.allows(self.arg, out),
    {
        self.provider.call(self.arg)
    }
}

/// How a visitor wants to be served.
#[verifier::reject_recursive_types(T)]
pub enum Visitor<T> {
    /// Its bytes are copied to the mapper stream and back.
    Forward(T),
    /// A handler of its own takes the mapper stream.
    Consume(ProviderWrapper<T, ()>),
}

/// What an incoming stream on the public port turned out to be.
#[verifier::reject_recursive_types(T)]
pub enum Peer<T> {
    /// The client's answer to the mapping request `id`.
    Mapper(u32, T),
    /// A visitor, and the target it is to be mapped to.
    Visitor(Visitor<T>, Address),
    /// A stream that has been dealt with already.
    Finished(T),
    /// A stream that nobody recognises.
    Unknown(T),
}

/// How the work on one incoming stream ended.
#[verifier::reject_recursive_types(T)]
pub enum State<T> {
    /// The session must end.
    Stop,
    /// The stream is to be closed.
    Close(T),
    /// Nothing is left to do.
    Finish,
    /// A visitor and its mapper stream, ready to be copied into one another.
    Forward(T, T),
    /// The handler of a visitor, ready to run on the mapper stream.
    Consume(Deferred<Fallback<T>, ()>),
    /// The control channel failed.
    Error(Error),
}

/// What a session hands to its caller.
#[verifier::reject_recursive_types(T)]
pub enum PenetrateOutcome<T> {
    /// Two streams to be copied into one another.
    Mapped(T, T),
    /// A handler to be run.
    Customize(Deferred<Fallback<T>, ()>),
}

/// What is to be done next for a stream that has been classified.
#[verifier::reject_recursive_types(T)]
pub enum Dispatch<T> {
    /// A visitor was parked under `id`, and the request to dial back for it
    /// is in the outbox; the mapper stream will arrive on `mapper`.
    Notify { id: u32, visit: Visitor<Fallback<T>>, mapper: Receiver<Fallback<T>> },
    /// A mapper stream arrived for a parked visitor: `stream` is to be sent
    /// into `slot`.
    Deliver { slot: Sender<Fallback<T>>, stream: Fallback<T> },
    /// The work on the stream is over.
    Ready(State<T>),
}

/// A visitor and its mapper stream, brought together.
#[verifier::reject_recursive_types(T)]
pub struct Paired<T> {
    /// What the visitor sent before it was paired; to be written to the
    /// mapper stream before anything else.
    pub to_mapper: Vec<u8>,
    /// What the mapper sent behind its mapping packet before it was paired;
    /// to be written to the visitor before anything else.
    pub to_visitor: Vec<u8>,
    pub state: State<T>,
}

/// What the session does about a task that has come to an end.
#[verifier::reject_recursive_types(T)]
pub enum Step<T> {
    /// Hand this to the caller.
    Emit(PenetrateOutcome<T>),
    /// Close this stream, and go on.
    Closing(T),
    /// Go on.
    Idle,
    /// End the session with this error.
    Fail(Error),
}

/// What [`Penetrate::settle`] answers to each state.
pub open spec fn settled<T>(state: State<T>) -> Step<T> {
    match state {
        State::Forward(s1, s2) => Step::Emit(PenetrateOutcome::Mapped(s1, s2)),
        State::Consume(handler) => Step::Emit(PenetrateOutcome::Customize(handler)),
        State::Close(s) => Step::Closing(s),
        State::Finish => Step::Idle,
        State::Stop => Step::Fail(Error::Channel),
        State::Error(e) => Step::Fail(e),
    }
}

/// The session of one control client.
#[verifier::reject_recursive_types(T)]
pub struct Penetrate<T, A> {
    config: Config,
    client_addr: Address,
    unpacker: Arc<Unpacker<T>>,
    wait_for: WaitFor<Sender<Fallback<T>>>,
    outbox: Outbox,
    accepter: A,
}

impl<T, A> Penetrate<T, A> {
    /// The outgoing side of the control channel.
    pub closed spec fn outbox(&self) -> OutboxView {
        self.outbox@
    }

    /// The live wait slots, by correlation id.
    pub closed spec fn waits(&self) -> Map<u32, Sender<Fallback<T>>> {
        self.wait_for@
    }

    /// The correlation id handed out last.
    pub closed spec fn cursor(&self) -> u32 {
        self.wait_for.cursor()
    }

    pub closed spec fn config(&self) -> Config {
        self.config
    }

    /// The address of the control client.
    pub closed spec fn client(&self) -> Address {
        self.client_addr
    }

    /// The listener on the public port.
    pub closed spec fn accepter(&self) -> A {
        self.accepter
    }

    /// The classifier of incoming streams.
    pub closed spec fn unpacker(&self) -> Unpacker<T> {
        *self.unpacker
    }

    /// Whether this session has the configuration, the client, the listener
    /// and the classifier that `before` had: what a session is set up with
    /// stays as it is for all its life.
    pub open spec fn keeps_setup(&self, before: &Self) -> bool {
        &&& self.config() == before.config()
        &&& self.client() == before.client()
        &&& self.accepter() == before.accepter()
        &&& self.unpacker() == before.unpacker()
    }

    /// A session for the control client at `client_addr`, with no visitor
    /// waiting. The session owns `accepter` and lets go of it when it is
    /// dropped.
    pub fn new(config: Config, unpacker: Arc<Unpacker<T>>, client_addr: Address, accepter: A) -> (session: Self)
        ensures
            session.waits() == Map::<u32, Sender<Fallback<T>>>::empty(),
            session.cursor() == 0,
            session.outbox() == (OutboxView { accepted: Seq::empty(), sent: 0 }),
            session.config() == config,
            session.client() == client_addr,
            session.accepter() == accepter,
            session.unpacker() == *unpacker,
    {
        Penetrate {
            config,
            client_addr,
            unpacker,
            wait_for: WaitFor::new(),
            outbox: Outbox::new(),
            accepter,
        }
    }

    pub fn get_config(&self) -> (config: &Config)
        ensures
            *config == self.config(),
    {
        &self.config
    }

    pub fn client_addr(&self) -> (addr: Address)
        ensures
            addr == self.client(),
    {
        self.client_addr
    }

    /// A look at the listener on the public port.
    pub fn get_accepter(&self) -> (accepter: &A)
        ensures
            *accepter == self.accepter(),
    {
        &self.accepter
    }

    /// Whether a visitor waits under `id`.
    pub fn is_waiting(&self, id: u32) -> (b: bool)
        ensures
            b == self.waits().contains_key(id),
    {
        self.wait_for.contains(id)
    }

    /// The number of visitors that wait.
    pub fn waiting(&self) -> (n: usize)
        ensures
            n == self.waits().len(),
    {
        self.wait_for.len()
    }

    /// Wraps a stream that the public port has just accepted, and starts
    /// recording what is read from it.
    pub fn accepted(&self, stream: T) -> (fb: Fallback<T>)
        ensures
            fb.target() == stream,
            fb@ == FallbackView::fresh(
                self.config().fallback_strict_mode,
                DEFAULT_LIMIT as nat,
            ).marked(),
    {
        let mut fb = Fallback::new(stream, self.config.fallback_strict_mode);
        fb.mark();
        fb
    }

    /// Asks the unpacker what the stream is.
    pub fn unpack(&self, fb: Fallback<T>) -> (out: Result<Peer<Fallback<T>>, Error>)
        ensures
            self.unpacker().allows(fb, out),
    {
        self.unpacker.call(fb)
    }

    /// Takes the wait slot of `id` out of the table, if it is there, and
    /// closes it, so that whoever waits on it gives up. No other slot is
    /// touched.
    pub fn abandon(&mut self, id: u32)
        ensures
            final(self).waits() == old(self).waits().remove(id),
            !final(self).waits().contains_key(id),
            final(self).cursor() == old(self).cursor(),
            final(self).keeps_setup(old(self)),
            final(self).outbox() == old(self).outbox(),
    {
        match self.wait_for.remove(id) {
            Some(slot) => {
                let _ = close_slot(&slot);
            },
            None => {},
        }
    }

    /// Whether going from the session `before` to this one with the answer
    /// `r` is what [`Penetrate::dispatch`] does for `peer`.
    ///
    /// A visitor is parked under the next free id, and the packet that asks
    /// the client to dial back for that id is put into the outbox, with the
    /// target marked mixed where the session is. Where every id is taken the
    /// visitor is refused with `ResourceExhausted`, and nothing changes.
    ///
    /// A mapper stream takes the slot of its id out of the table: where one
    /// is there the stream is to be delivered into it, where none is (the
    /// visitor timed out, or failed) the stream is to be closed.
    ///
    /// Any other stream is to be closed.
    pub open spec fn dispatched(
        &self,
        before: &Self,
        peer: Peer<Fallback<T>>,
        r: Result<Dispatch<T>, Error>,
    ) -> bool {
        &&& self.keeps_setup(before)
        &&& match peer {
            Peer::Visitor(visit, target) => match r {
                Ok(Dispatch::Notify { id, visit: parked, mapper }) => {
                    &&& is_next_free(before.waits().dom(), before.cursor(), id)
                    &&& !before.waits().contains_key(id)
                    &&& self.waits() == before.waits().insert(id, self.waits()[id])
                    &&& self.waits().contains_key(id)
                    &&& self.cursor() == id
                    &&& parked == visit
                    &&& self.outbox() == before.outbox().pushed(
                        MessageView::Mapping(
                            id,
                            target@.with_mixed(before.config().is_mixed),
                        ).packet().wire(),
                    )
                },
                Ok(_) => false,
                Err(e) => {
                    &&& e@ == ErrorView::ResourceExhausted
                    &&& all_live(before.waits().dom())
                    &&& self.waits() == before.waits()
                    &&& self.cursor() == before.cursor()
                    &&& self.outbox() == before.outbox()
                },
            },
            Peer::Mapper(id, stream) => {
                &&& self.waits() == before.waits().remove(id)
                &&& !self.waits().contains_key(id)
                &&& self.outbox() == before.outbox()
                &&& self.cursor() == before.cursor()
                &&& r == Ok::<Dispatch<T>, Error>(
                    if before.waits().contains_key(id) {
                        Dispatch::Deliver { slot: before.waits()[id], stream }
                    } else {
                        Dispatch::Ready(State::Close(stream.target()))
                    },
                )
            },
            Peer::Finished(stream) | Peer::Unknown(stream) => {
                &&& self.waits() == before.waits()
                &&& self.outbox() == before.outbox()
                &&& self.cursor() == before.cursor()
                &&& r == Ok::<Dispatch<T>, Error>(Dispatch::Ready(State::Close(stream.target())))
            },
        }
    }

    /// Serves a stream of the public port whose first bytes are held: asks
    /// the unpacker what it is, and decides what is done with it. A failure
    /// of the unpacker is handed on, and changes nothing.
    pub fn handle(&mut self, fb: Fallback<T>) -> (r: Result<Dispatch<T>, Error>)
        ensures
            ({
                ||| exists|peer: Peer<Fallback<T>>| #[trigger]
                    old(self).unpacker().allows(fb, Ok(peer)) && final(self).dispatched(
                        old(self),
                        peer,
                        r,
                    )
                ||| exists|e: Error| #[trigger]
                    old(self).unpacker().allows(fb, Err(e)) && r == Err::<Dispatch<T>, Error>(e)
                        && *final(self) == *old(self)
            }),
    {
        match self.unpacker.call(fb) {
            Ok(peer) => {
                let r = self.dispatch(peer);
                assert(old(self).unpacker().allows(fb, Ok(peer)) && self.dispatched(
                    old(self),
                    peer,
                    r,
                ));
                r
            },
            Err(e) => {
                assert(old(self).unpacker().allows(fb, Err(e)));
                Err(e)
            },
        }
    }

    /// Decides what is done with a stream that has been classified, as
    /// [`Penetrate::dispatched`] says.
    pub fn dispatch(&mut self, peer: Peer<Fallback<T>>) -> (r: Result<Dispatch<T>, Error>)
        ensures
            final(self).dispatched(old(self), peer, r),
    {
        match peer {
            Peer::Visitor(visit, target) => {
                let (slot, mapper) = open_slot();
                match self.wait_for.push(slot) {
                    Ok(id) => {
                        let target = target.if_stream_mixed(self.config.is_mixed);
                        let packet = Message::mapping_bytes(id, &target);
                        self.outbox.push(packet.as_slice());
                        assert(self.waits() =~= old(self).waits().insert(id, self.waits()[id]));
                        Ok(Dispatch::Notify { id, visit, mapper })
                    },
                    Err(e) => Err(e),
                }
            },
            Peer::Mapper(id, stream) => match self.wait_for.remove(id) {
                Some(slot) => Ok(Dispatch::Deliver { slot, stream }),
                None => Ok(Dispatch::Ready(State::Close(stream.discard()))),
            },
            Peer::Finished(stream) => Ok(Dispatch::Ready(State::Close(stream.discard()))),
            Peer::Unknown(stream) => Ok(Dispatch::Ready(State::Close(stream.discard()))),
        }
    }

    /// The bytes to hand to the control channel next: whole packets, in the
    /// order in which they were decided on. Empty where nothing is to be
    /// written.
    pub fn next_write(&self) -> (bytes: &[u8])
        ensures
            self.outbox().wf(),
            bytes@ == self.outbox().pending(),
    {
        self.outbox.front()
    }

    /// Takes note of how a write to the control channel went: it took so
    /// many bytes, or it failed. A failure ends the session.
    pub fn written(&mut self, wrote: Result<usize, Error>) -> (r: Option<State<T>>)
        ensures
            final(self).waits() == old(self).waits(),
            final(self).cursor() == old(self).cursor(),
            final(self).keeps_setup(old(self)),
            match wrote {
                Ok(n) => r is None && final(self).outbox() == old(self).outbox().advanced(n as nat),
                Err(e) => r == Some(State::<T>::Error(e)) && final(self).outbox() == old(self).outbox(),
            },
    {
        match wrote {
            Ok(n) => {
                self.outbox.wrote(n);
                None
            },
            Err(e) => Some(State::Error(e)),
        }
    }

    /// Gives up on the visitor `id`, whose wait ended with the error `e`
    /// (its time ran out, it hung up, or writing to its mapper stream
    /// failed): the visitor is taken out of the table, and `e` is handed
    /// back to be reported. The session goes on.
    pub fn failed(&mut self, id: u32, e: Error) -> (r: Error)
        ensures
            r == e,
            final(self).waits() == old(self).waits().remove(id),
            !final(self).waits().contains_key(id),
            final(self).cursor() == old(self).cursor(),
            final(self).keeps_setup(old(self)),
            final(self).outbox() == old(self).outbox(),
    {
        self.abandon(id);
        e
    }

    /// Gives up on the visitor `id`, whose time to wait ran out.
    pub fn timed_out(&mut self, id: u32) -> (r: Error)
        ensures
            r == Error::Timeout,
            final(self).waits() == old(self).waits().remove(id),
            !final(self).waits().contains_key(id),
            final(self).cursor() == old(self).cursor(),
            final(self).keeps_setup(old(self)),
            final(self).outbox() == old(self).outbox(),
    {
        self.failed(id, Error::Timeout)
    }

    /// Ends the work on one stream of the public port. `parked` is the id
    /// under which the stream waits, if it is a visitor that was parked, and
    /// `result` is how the work went; a visitor whose time ran out comes
    /// here with `Timeout`.
    ///
    /// Work that went well ends in the state it reached. Work that failed
    /// costs the visitor its place in the table and nothing more: the
    /// session goes on, and the error is handed back for the log.
    pub fn conclude(&mut self, parked: Option<u32>, result: Result<State<T>, Error>) -> (r: (
        State<T>,
        Option<Error>,
    ))
        ensures
            final(self).keeps_setup(old(self)),
            final(self).outbox() == old(self).outbox(),
            final(self).cursor() == old(self).cursor(),
            match result {
                Ok(state) => r == (state, None::<Error>) && final(self).waits() == old(self).waits(),
                Err(e) => {
                    &&& r == (State::<T>::Finish, Some(e))
                    &&& final(self).waits() == match parked {
                        Some(id) => old(self).waits().remove(id),
                        None => old(self).waits(),
                    }
                },
            },
    {
        match result {
            Ok(state) => (state, None),
            Err(e) => {
                match parked {
                    Some(id) => self.abandon(id),
                    None => {},
                }
                (State::Finish, Some(e))
            },
        }
    }

    /// Says how the delivery of a mapper stream into its slot ended: where
    /// the stream was taken the work is over, where the slot was closed the
    /// stream is lost with a `Channel` error.
    pub fn delivered(taken: bool) -> (r: Result<State<T>, Error>)
        ensures
            r == if taken {
                Ok::<State<T>, Error>(State::Finish)
            } else {
                Err::<State<T>, Error>(Error::Channel)
            },
    {
        if taken {
            Ok(State::Finish)
        } else {
            Err(Error::Channel)
        }
    }

    /// Takes note of what the control channel gave: a packet, or the error
    /// of the read. `Some` ends the session with that state.
    ///
    /// A failed read and a packet that cannot be decoded end the session. A
    /// heartbeat changes nothing. A mapping error takes the visitor of its
    /// id out of the table and closes its slot. Every other message is
    /// passed over.
    pub fn received(&mut self, packet: Result<Packet, Error>) -> (r: Option<State<T>>)
        ensures
            final(self).outbox() == old(self).outbox(),
            final(self).cursor() == old(self).cursor(),
            final(self).keeps_setup(old(self)),
            match packet {
                Err(e) => r == Some(State::<T>::Error(e)) && final(self).waits() == old(self).waits(),
                Ok(p) => match parse_message(p@) {
                    None => r == Some(State::<T>::Error(Error::Decode)) && final(self).waits()
                        == old(self).waits(),
                    Some(MessageView::MapError(id, _)) => {
                        &&& r is None
                        &&& final(self).waits() == old(self).waits().remove(id)
                        &&& !final(self).waits().contains_key(id)
                    },
                    Some(_) => r is None && final(self).waits() == old(self).waits(),
                },
            },
    {
        match packet {
            Err(e) => Some(State::Error(e)),
            Ok(p) => match Message::try_message(&p) {
                Err(_) => Some(State::Error(Error::Decode)),
                Ok(Message::MapError(id, _)) => {
                    self.abandon(id);
                    None
                },
                Ok(_) => None,
            },
        }
    }

    /// Puts a heartbeat into the outbox, and says how long to pause before
    /// the next one.
    pub fn heartbeat(&mut self) -> (pause: Duration)
        ensures
            pause == old(self).config().heartbeat_timeout,
            final(self).outbox() == old(self).outbox().pushed(MessageView::Ping.packet().wire()),
            final(self).waits() == old(self).waits(),
            final(self).cursor() == old(self).cursor(),
            final(self).keeps_setup(old(self)),
    {
        let ping = Message::ping_bytes();
        self.outbox.push(ping.as_slice());
        self.config.heartbeat_timeout
    }

    /// Decides what is done about a task that has come to an end.
    pub fn settle(state: State<T>) -> (step: Step<T>)
        ensures
            step == settled(state),
    {
        match state {
            State::Forward(s1, s2) => Step::Emit(PenetrateOutcome::Mapped(s1, s2)),
            State::Consume(handler) => Step::Emit(PenetrateOutcome::Customize(handler)),
            State::Close(s) => Step::Closing(s),
            State::Finish => Step::Idle,
            State::Stop => Step::Fail(Error::Channel),
            State::Error(e) => Step::Fail(e),
        }
    }
}

/// Brings a visitor and its mapper stream together.
///
/// A visitor that is forwarded is rewound, and all that it sent while it was
/// looked at is taken out of its wrapper, to be written to the mapper stream
/// first: the bytes reach the mapper once, and before anything the visitor
/// sends later. What the mapper sent behind its mapping packet goes to the
/// visitor in the same way. Both wrappers are then given up.
///
/// A visitor with a handler of its own has the handler set up on the mapper
/// stream.
pub fn pair<T>(visit: Visitor<Fallback<T>>, stream: Fallback<T>) -> (paired: Paired<T>)
    ensures
        match visit {
            Visitor::Forward(visitor) => {
                &&& paired.to_mapper@ == visitor@.rewound().pending()
                &&& paired.to_visitor@ == stream@.committed().pending()
                &&& paired.state == State::Forward(visitor.target(), stream.target())
            },
            Visitor::Consume(handler) => {
                &&& paired.to_mapper@.len() == 0
                &&& paired.to_visitor@.len() == 0
                &&& paired.state == State::<T>::Consume(Deferred { provider: handler, arg: stream })
            },
        },
{
    match visit {
        Visitor::Forward(first) => {
            let mut visitor = first;
            let mut mapper = stream;
            proof {
                use_type_invariant(&visitor);
                use_type_invariant(&mapper);
            }
            visitor.backward();
            mapper.commit();
            let to_mapper = visitor.replay(visitor.pending_len());
            let to_visitor = mapper.replay(mapper.pending_len());
            assert(to_mapper@ =~= first@.rewound().pending());
            assert(to_visitor@ =~= stream@.committed().pending());
            Paired {
                to_mapper,
                to_visitor,
                state: State::Forward(visitor.into_inner(), mapper.into_inner()),
            }
        },
        Visitor::Consume(handler) => Paired {
            to_mapper: Vec::new(),
            to_visitor: Vec::new(),
            state: State::Consume(Deferred { provider: handler, arg: stream }),
        },
    }
}

/// What greets a new control client: it takes the client's request for a
/// public port, answers it, and sets the session up.
#[verifier::reject_recursive_types(T)]
pub struct PenetrateProvider<T> {
    pub(crate) config: Config,
    pub(crate) unpacker: Arc<Unpacker<T>>,
}

/// A session that hands out the work it has for its caller.
#[verifier::reject_recursive_types(T)]
pub struct PenetrateGenerator<T, A>(Penetrate<T, A>);

/// A piece of work that a session hands to its caller.
#[verifier::reject_recursive_types(T)]
pub enum Job<T> {
    /// Copy the two streams into one another until one of them ends.
    Forward(T, T),
    /// Run the handler.
    Custom(Deferred<Fallback<T>, ()>),
}

impl<T> PenetrateProvider<T> {
    pub closed spec fn config(&self) -> Config {
        self.config
    }

    pub closed spec fn unpacker(&self) -> Unpacker<T> {
        *self.unpacker
    }

    pub fn new(config: Config, unpacker: Arc<Unpacker<T>>) -> (p: Self)
        ensures
            p.config() == config,
            p.unpacker() == *unpacker,
    {
        PenetrateProvider { config, unpacker }
    }

    /// Reads the first packet of a control client: the address it asks to
    /// have bound. A failed read is handed on; a packet that cannot be
    /// decoded fails with `Decode`; any message but `Bind` fails with
    /// `Unexpected` and the name of the message.
    pub fn request(packet: Result<Packet, Error>) -> (r: Result<Address, Error>)
        ensures
            match packet {
                Err(e) => r == Err::<Address, Error>(e),
                Ok(p) => match parse_message(p@) {
                    None => r matches Err(x) && x@ == ErrorView::Decode,
                    Some(MessageView::Bind(a)) => r matches Ok(addr) && addr@ == a,
                    Some(m) => r matches Err(x) && x@ == ErrorView::Unexpected(m.name()),
                },
            },
    {
        match packet {
            Err(e) => Err(e),
            Ok(p) => match Message::try_message(&p) {
                Err(_) => Err(Error::Decode),
                Ok(Message::Bind(addr)) => Ok(addr),
                Ok(m) => Err(Error::Unexpected(m.name())),
            },
        }
    }

    /// The answer to the client once the network has been asked to bind
    /// `requested`: `BindOk` where it did, `BindFailed` with the text of the
    /// error where it did not. `None` exactly where that text is too long
    /// for a packet.
    pub fn reply<A>(requested: &Address, bound: &Result<A, Error>) -> (bytes: Option<Vec<u8>>)
        ensures
            match *bound {
                Ok(_) => bytes matches Some(b) && b@ == MessageView::BindOk(
                    requested@,
                ).packet().wire(),
                Err(e) => {
                    let m = MessageView::BindFailed(requested@, e@.text());
                    &&& bytes is Some <==> m.encodable()
                    &&& bytes matches Some(b) ==> b@ == m.packet().wire()
                },
            },
    {
        match bound {
            Ok(_) => Some(Message::bind_ok_bytes(requested)),
            Err(e) => Message::BindFailed(*requested, e.describe()).to_packet_vec(),
        }
    }

    /// Ends the greeting. Where the port could not be bound the client is
    /// refused with `BindFailed` and the text of the error, whether or not
    /// the answer reached it. Where the port was bound but the answer could
    /// not be written, the listener is dropped and the error of the write
    /// handed on. Otherwise the session is set up, with no visitor waiting.
    pub fn establish<A>(
        &self,
        client_addr: Address,
        bound: Result<A, Error>,
        replied: Result<(), Error>,
    ) -> (r: Result<PenetrateGenerator<T, A>, Error>)
        ensures
            match bound {
                Err(e) => r matches Err(x) && x@ == ErrorView::BindFailed(e@.text()),
                Ok(accepter) => match replied {
                    Err(e) => r matches Err(x) && x == e,
                    Ok(_) => {
                        &&& r matches Ok(generator)
                        &&& generator.session().waits() == Map::<u32, Sender<Fallback<T>>>::empty()
                        &&& generator.session().cursor() == 0
                        &&& generator.session().outbox() == (OutboxView {
                            accepted: Seq::empty(),
                            sent: 0,
                        })
                        &&& generator.session().config() == self.config()
                        &&& generator.session().client() == client_addr
                        &&& generator.session().accepter() == accepter
                        &&& generator.session().unpacker() == self.unpacker()
                    },
                },
            },
    {
        match bound {
            Err(e) => Err(Error::BindFailed(e.describe())),
            Ok(accepter) => match replied {
                Err(e) => Err(e),
                Ok(_) => Ok(
                    PenetrateGenerator(
                        Penetrate::new(self.config, self.unpacker.clone(), client_addr, accepter),
                    ),
                ),
            },
        }
    }
}

impl<T, A> PenetrateGenerator<T, A> {
    /// The session inside.
    pub closed spec fn session(&self) -> Penetrate<T, A> {
        self.0
    }

    pub fn get_ref(&self) -> (session: &Penetrate<T, A>)
        ensures
            *session == self.session(),
    {
        &self.0
    }

    pub fn into_inner(self) -> (session: Penetrate<T, A>)
        ensures
            session == self.session(),
    {
        self.0
    }

    /// Turns what the session hands out into work for the caller: a pair of
    /// streams is to be forwarded, a handler is to be run.
    pub fn generate(outcome: PenetrateOutcome<T>) -> (job: Option<Job<T>>)
        ensures
            job == Some(
                match outcome {
                    PenetrateOutcome::Mapped(s1, s2) => Job::Forward(s1, s2),
                    PenetrateOutcome::Customize(handler) => Job::Custom(handler),
                },
            ),
    {
        match outcome {
            PenetrateOutcome::Mapped(s1, s2) => Some(Job::Forward(s1, s2)),
            PenetrateOutcome::Customize(handler) => Some(Job::Custom(handler)),
        }
    }

    /// What a forwarding job reports once the copy has ended: the two
    /// streams have left the session, so an error of the copy is for the log
    /// and the job itself ends well.
    pub fn forwarded(copied: Result<(), Error>) -> (r: Result<(), Error>)
        ensures
            r is Ok,
    {
        Ok(())
    }
}

impl<T, A: NetSocket> NetSocket for Penetrate<T, A> {
    open spec fn is_peer(&self, out: Result<Address, Error>) -> bool {
        self.accepter().is_peer(out)
    }

    open spec fn is_local(&self, out: Result<Address, Error>) -> bool {
        self.accepter().is_local(out)
    }

    fn peer_addr(&self) -> (out: Result<Address, Error>) {
        self.accepter.peer_addr()
    }

    fn local_addr(&self) -> (out: Result<Address, Error>) {
        self.accepter.local_addr()
    }
}

} // verus!
