use std::sync::mpsc::{Receiver, TryRecvError};
use vstd::prelude::*;

verus! {

#[verifier::external_type_specification]
#[verifier::external_body]
#[verifier::reject_recursive_types(T)]
pub struct ExReceiver<T>(Receiver<T>);

/// What one non-blocking receive observed.
pub enum Polled<T> {
    Item(T),
    Empty,
    Disconnected,
}

/// Relies on std's `Receiver::try_recv`: it never blocks, and it tells a
/// channel with nothing waiting apart from one whose senders are all gone.
/// What it yields depends on other threads, so nothing more is stated.
#[verifier::external_body]
pub(crate) fn try_receive<T>(rx: &Receiver<T>) -> (r: Polled<T>) {
    match rx.try_recv() {
        Ok(v) => Polled::Item(v),
        Err(TryRecvError::Empty) => Polled::Empty,
        Err(TryRecvError::Disconnected) => Polled::Disconnected,
    }
}

/// The two resource pipelines of a request.
#[derive(Clone, Copy, Debug, PartialEq, Eq, Structural)]
pub enum RequestPart {
    Buffers,
    Images,
}

/// Why a request cannot be finalized (yet).
#[derive(Clone, Copy, Debug, PartialEq, Eq, Structural)]
pub enum RequestError {
    /// The producer has not sent this part yet: poll again later.
    NotReady,
    /// The producer went away without sending this part: the request is lost.
    Disconnected(RequestPart),
}

/// The received parts of a request.
pub struct RequestView<B, I> {
    pub buffers: Option<B>,
    pub images: Option<I>,
}

/// The slot of an unreceived part after one poll of its channel.
pub open spec fn absorb_spec<T>(polled: Polled<T>, part: RequestPart) -> (Option<T>, Result<(), RequestError>) {
    match polled {
        Polled::Item(v) => (Some(v), Ok(())),
        Polled::Empty => (None, Err(RequestError::NotReady)),
        Polled::Disconnected => (None, Err(RequestError::Disconnected(part))),
    }
}

/// A request after one readiness check, given what each channel would yield
/// if polled: a part already received is not polled again, and the images
/// are polled only once the buffers are in.
pub open spec fn poll_request_spec<B, I>(v: RequestView<B, I>, bp: Polled<B>, ip: Polled<I>) -> (RequestView<B, I>, Result<(), RequestError>) {
    let (b, rb) = if v.buffers is Some {
        (v.buffers, Ok(()))
    } else {
        absorb_spec(bp, RequestPart::Buffers)
    };
    if rb is Err {
        (RequestView { buffers: b, images: v.images }, rb)
    } else {
        let (i, ri) = if v.images is Some {
            (v.images, Ok(()))
        } else {
            absorb_spec(ip, RequestPart::Images)
        };
        (RequestView { buffers: b, images: i }, ri)
    }
}

/// Stores what a poll of an unreceived part yielded.
pub fn absorb<T>(slot: &mut Option<T>, polled: Polled<T>, part: RequestPart) -> (r: Result<(), RequestError>)
    requires
        *old(slot) is None,
    ensures
        (*final(slot), r) == absorb_spec(polled, part),
{
    match polled {
        Polled::Item(v) => {
            *slot = Some(v);
            Ok(())
        },
        Polled::Empty => Err(RequestError::NotReady),
        Polled::Disconnected => Err(RequestError::Disconnected(part)),
    }
}

/// Resources whose creation was dispatched to another thread: the buffers
/// and the images arrive on channels of their own, and the request is
/// finalized once both are in.
#[verifier::reject_recursive_types(B)]
#[verifier::reject_recursive_types(I)]
pub struct ResourceRequest<B, I> {
    buffers: Option<B>,
    images: Option<I>,
    buffer_requests: Receiver<B>,
    image_requests: Receiver<I>,
}

impl<B, I> View for ResourceRequest<B, I> {
    type V = RequestView<B, I>;

    closed spec fn view(&self) -> RequestView<B, I> {
        RequestView { buffers: self.buffers, images: self.images }
    }
}

impl<B, I> ResourceRequest<B, I> {
    pub fn new(buffer_requests: Receiver<B>, image_requests: Receiver<I>) -> (r: ResourceRequest<B, I>)
        ensures
            r@.buffers is None,
            r@.images is None,
    {
        ResourceRequest { buffers: None, images: None, buffer_requests, image_requests }
    }

    /// Polls, without blocking, the channels of the parts not yet received.
    /// `Ok` means that both parts are in and `finalize` will succeed.
    pub fn can_be_finalized(&mut self) -> (r: Result<(), RequestError>)
        ensures
            exists|bp: Polled<B>, ip: Polled<I>| (final(self)@, r) == poll_request_spec(old(self)@, bp, ip),
            r is Ok <==> (final(self)@.buffers is Some && final(self)@.images is Some),
            old(self)@.buffers is Some ==> final(self)@.buffers == old(self)@.buffers,
            old(self)@.images is Some ==> final(self)@.images == old(self)@.images,
            old(self)@.buffers is Some && old(self)@.images is Some ==> r is Ok && final(self)@ == old(self)@,
    {
        let ghost pre = self@;
        let ghost mut bw: Polled<B> = Polled::Empty;
        let ghost mut iw: Polled<I> = Polled::Empty;
        if self.buffers.is_none() {
            let p = try_receive(&self.buffer_requests);
            proof {
                bw = p;
            }
            let rb = absorb(&mut self.buffers, p, RequestPart::Buffers);
            if rb.is_err() {
                assert((self@, rb) == poll_request_spec(pre, bw, iw));
                return rb;
            }
        }
        if self.images.is_none() {
            let p = try_receive(&self.image_requests);
            proof {
                iw = p;
            }
            let ri = absorb(&mut self.images, p, RequestPart::Images);
            assert((self@, ri) == poll_request_spec(pre, bw, iw));
            return ri;
        }
        assert((self@, Ok::<(), RequestError>(())) == poll_request_spec(pre, bw, iw));
        Ok(())
    }

    /// Consumes the request and yields its parts, once both are in.
    pub fn finalize(self) -> (r: Result<(B, I), RequestError>)
        ensures
            r is Ok <==> (self@.buffers is Some && self@.images is Some),
            r is Ok ==> r->Ok_0 == (self@.buffers->Some_0, self@.images->Some_0),
            r is Err ==> r == Err::<(B, I), RequestError>(RequestError::NotReady),
    {
        let ResourceRequest { buffers, images, .. } = self;
        match (buffers, images) {
            (Some(b), Some(i)) => Ok((b, i)),
            _ => Err(RequestError::NotReady),
        }
    }
}

/// Polling idempotence: while the part being waited for has not been sent,
/// a readiness check changes nothing and reports `NotReady`, however often
/// it is repeated.
pub proof fn lemma_poll_not_ready_is_idle<B, I>(v: RequestView<B, I>, bp: Polled<B>, ip: Polled<I>)
    requires
        (v.buffers is None && bp is Empty) || (v.buffers is Some && v.images is None && ip is Empty),
    ensures
        poll_request_spec(v, bp, ip) == (v, Err::<(), RequestError>(RequestError::NotReady)),
{
}

/// Once the producer has sent the last missing part, exactly one check moves
/// the request to ready; later checks leave it as it is, and finalizing it
/// then succeeds with what was sent.
pub proof fn lemma_ready_after_send<B, I>(v: RequestView<B, I>, b: B, ip: Polled<I>, bp2: Polled<B>, ip2: Polled<I>)
    requires
        v.buffers is None,
        v.images is Some,
    ensures
        ({
            let (v1, r1) = poll_request_spec(v, Polled::Item(b), ip);
            &&& r1 is Ok
            &&& v1.buffers == Some(b)
            &&& v1.images == v.images
            &&& poll_request_spec(v1, bp2, ip2) == (v1, Ok::<(), RequestError>(()))
        }),
{
}

/// A producer that went away without sending leaves the request failed,
/// which a readiness check reports as distinct from "not ready".
pub proof fn lemma_disconnect_is_not_pending<B, I>(v: RequestView<B, I>, ip: Polled<I>)
    requires
        v.buffers is None,
    ensures
        poll_request_spec(v, Polled::Disconnected, ip).1 == Err::<(), RequestError>(
            RequestError::Disconnected(RequestPart::Buffers),
        ),
{
}

} // verus!
