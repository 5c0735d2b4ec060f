//! The client side: a proxy that sends each operation to a remote service.
//!
//! The proxy composes the request code, hands code and request to the
//! transport, and copies the payload of the transport's reply into the
//! caller's reply buffer. It tries once: whatever fails, the call fails.

use vstd::prelude::*;
use crate::buffer::{Buffer, BufferView};
use crate::error::{FusionResult, FAILURE, SUCCESS};
use crate::identity::{compose_param_id, request_code, CommonAction, Intention, CODE_MASK};
use crate::service::IDeviceStatus;

verus! {

/// Whether the whole of `src` can be moved into `target`: nothing of `src`
/// has been read yet, and `target` has room for all of it.
pub open spec fn can_transfer(src: BufferView, target: BufferView) -> bool {
    src.can_read(src.bytes.len()) && target.can_write(src.bytes.len())
}

/// Copies the whole payload of `src` to the end of `target`.
///
/// Succeeds with `SUCCESS` exactly when `can_transfer` holds; `target` then
/// holds what it held before, followed by the bytes of `src`, one for one.
/// Otherwise fails with `FAILURE`, and `target` is left as it was. `src` is
/// read to its end where it could be read in full, and is left as it was
/// where it could not.
pub fn transfer_data(src: &mut Buffer, target: &mut Buffer) -> (result: FusionResult<i32>)
    ensures
        result == (if can_transfer(old(src)@, old(target)@) {
            Ok::<i32, i32>(SUCCESS)
        } else {
            Err::<i32, i32>(FAILURE)
        }),
        result is Ok ==> final(target)@ == old(target)@.after_write(old(src)@.bytes),
        result is Err ==> *final(target) == *old(target),
        old(src)@.can_read(old(src)@.bytes.len()) ==> final(src)@ == old(src)@.after_read(
            old(src)@.bytes.len(),
        ),
        !old(src)@.can_read(old(src)@.bytes.len()) ==> *final(src) == *old(src),
{
    let data_size: usize = src.get_data_size();
    match src.read_buffer(data_size) {
        Some(data_vec) => {
            assert(data_vec@ == old(src)@.bytes);
            if target.write_buffer(data_vec.as_slice()) {
                Ok(SUCCESS)
            } else {
                Err(FAILURE)
            }
        },
        None => Err(FAILURE),
    }
}

/// What a call amounts to once the transport has answered with `outcome`:
/// `before` and `after` are the caller's reply buffer before and after,
/// `result` is what the caller is told.
///
/// A failed transmission gives `FAILURE` and leaves the reply buffer as it
/// was. A reply whose payload can be transferred gives `SUCCESS` and adds
/// exactly that payload to the reply buffer. A reply whose payload cannot be
/// transferred gives `FAILURE` and leaves the reply buffer as it was.
pub open spec fn completes(
    outcome: Result<Buffer, i32>,
    before: Buffer,
    after: Buffer,
    result: FusionResult<i32>,
) -> bool {
    match outcome {
        Err(_) => result == Err::<i32, i32>(FAILURE) && after == before,
        Ok(rep) => if can_transfer(rep@, before@) {
            result == Ok::<i32, i32>(SUCCESS) && after@ == before@.after_write(rep@.bytes)
        } else {
            result == Err::<i32, i32>(FAILURE) && after == before
        },
    }
}

/// Finishes a call with what the transport answered: the transport's reply
/// buffer, or the transport's error.
pub fn complete_request(outcome: Result<Buffer, i32>, reply: &mut Buffer) -> (result:
    FusionResult<i32>)
    ensures
        completes(outcome, *old(reply), *final(reply), result),
{
    match outcome {
        Ok(rep) => {
            let mut rep = rep;
            transfer_data(&mut rep, reply)
        },
        Err(_) => Err(FAILURE),
    }
}

/// The proxy of a remote service. `remote` is the transport: it is called
/// with a request code and a request buffer, delivers them, and returns the
/// reply buffer of the remote side or an error code of its own. It has to
/// take every request buffer and every code up to `CODE_MASK`.
pub struct FusionIpcProxy<R: Fn(u32, &Buffer) -> Result<Buffer, i32>> {
    remote: R,
}

impl<R: Fn(u32, &Buffer) -> Result<Buffer, i32>> FusionIpcProxy<R> {
    /// The transport.
    pub closed spec fn remote(&self) -> R {
        self.remote
    }

    /// Holds of every proxy that a program can hold: the transport takes
    /// every request with a code up to `CODE_MASK`.
    #[verifier::type_invariant]
    pub open spec fn wf(self) -> bool {
        forall|code: u32, data: &Buffer|
            code <= CODE_MASK ==> call_requires(self.remote(), (code, data))
    }

    /// A proxy that sends through `remote`.
    pub fn new(remote: R) -> (proxy: Self)
        requires
            forall|code: u32, data: &Buffer|
                code <= CODE_MASK ==> call_requires(remote, (code, data)),
        ensures
            proxy.remote() == remote,
    {
        FusionIpcProxy { remote }
    }

    /// What one call through this proxy may do: the transport was handed the
    /// request code of `action`, `intention` and `id` together with `data`,
    /// and the call was completed with what the transport answered.
    pub open spec fn transmitted(
        &self,
        action: CommonAction,
        intention: Intention,
        id: u32,
        data: Buffer,
        before: Buffer,
        after: Buffer,
        result: FusionResult<i32>,
    ) -> bool {
        exists|outcome: Result<Buffer, i32>|
            {
                &&& call_ensures(
                    self.remote(),
                    (request_code(action, intention, id) as u32, &data),
                    outcome,
                )
                &&& #[trigger] completes(outcome, before, after, result)
            }
    }

    /// For a proxy, to have served an operation is to have transmitted it.
    pub proof fn lemma_served_is_transmitted(
        &self,
        action: CommonAction,
        intention: Intention,
        id: u32,
        data: Buffer,
        before: Buffer,
        after: Buffer,
        result: FusionResult<i32>,
    )
        ensures
            self.served(action, intention, id, data, before, after, result) == self.transmitted(
                action,
                intention,
                id,
                data,
                before,
                after,
                result,
            ),
    {
    }

    /// Payload fidelity: a call that succeeds has added to the caller's reply
    /// buffer exactly the bytes of a reply that the transport gave to this
    /// request, all of them and nothing else. On a reply buffer that was
    /// empty, these bytes are then all it holds.
    pub proof fn lemma_payload_fidelity(
        &self,
        action: CommonAction,
        intention: Intention,
        id: u32,
        data: Buffer,
        before: Buffer,
        after: Buffer,
        result: FusionResult<i32>,
    )
        requires
            self.transmitted(action, intention, id, data, before, after, result),
            result is Ok,
        ensures
            result == Ok::<i32, i32>(SUCCESS),
            exists|rep: Buffer|
                {
                    &&& #[trigger] call_ensures(
                        self.remote(),
                        (request_code(action, intention, id) as u32, &data),
                        Ok::<Buffer, i32>(rep),
                    )
                    &&& after@.bytes == before@.bytes + rep@.bytes
                    &&& before@.bytes.len() == 0 ==> after@.bytes == rep@.bytes
                },
    {
        let outcome = choose|outcome: Result<Buffer, i32>|
            {
                &&& call_ensures(
                    self.remote(),
                    (request_code(action, intention, id) as u32, &data),
                    outcome,
                )
                &&& #[trigger] completes(outcome, before, after, result)
            };
        let rep = outcome->Ok_0;
        assert(before@.bytes.len() == 0 ==> before@.bytes + rep@.bytes == rep@.bytes);
    }

    /// Transport failure: where the transport can only fail on this request,
    /// the call fails with `FAILURE` and the caller's reply buffer is as it
    /// was before the call.
    pub proof fn lemma_transport_failure(
        &self,
        action: CommonAction,
        intention: Intention,
        id: u32,
        data: Buffer,
        before: Buffer,
        after: Buffer,
        result: FusionResult<i32>,
    )
        requires
            self.transmitted(action, intention, id, data, before, after, result),
            forall|outcome: Result<Buffer, i32>| #[trigger]
                call_ensures(
                    self.remote(),
                    (request_code(action, intention, id) as u32, &data),
                    outcome,
                ) ==> outcome is Err,
        ensures
            result == Err::<i32, i32>(FAILURE),
            after == before,
    {
    }

    /// Sends one request and brings the reply back.
    ///
    /// The transport is called once, with the request code composed from
    /// `action`, `intention` and `id`, and with `data`. Where it fails, the
    /// call fails with `FAILURE` and `reply` is left as it was. Where it
    /// answers, the payload of its reply is transferred to `reply` as
    /// `transfer_data` does. `reply` is meant to be empty on entry; bytes it
    /// already holds stay in front of the payload.
    ///
    /// Of `id`, the request code carries what `compose_param_id` keeps.
    pub fn send_request(
        &self,
        action: CommonAction,
        intention: Intention,
        id: u32,
        data: &Buffer,
        reply: &mut Buffer,
    ) -> (result: FusionResult<i32>)
        ensures
            self.transmitted(action, intention, id, *data, *old(reply), *final(reply), result),
    {
        proof {
            use_type_invariant(self);
        }
        let code: u32 = compose_param_id(action, intention, id);
        assert(call_requires(self.remote(), (code, data)));
        let outcome = (self.remote)(code, data);
        complete_request(outcome, reply)
    }
}

impl<R: Fn(u32, &Buffer) -> Result<Buffer, i32>> IDeviceStatus for FusionIpcProxy<R> {
    open spec fn served(
        &self,
        action: CommonAction,
        intention: Intention,
        id: u32,
        data: Buffer,
        before: Buffer,
        after: Buffer,
        result: FusionResult<i32>,
    ) -> bool {
        self.transmitted(action, intention, id, data, before, after, result)
    }

    fn enable(
        &self,
        intention: Intention,
        data: &Buffer,
        reply: &mut Buffer,
    ) -> (result: FusionResult<i32>)
        ensures
            self.transmitted(
                CommonAction::Enable,
                intention,
                0,
                *data,
                *old(reply),
                *final(reply),
                result,
            ),
    {
        self.send_request(CommonAction::Enable, intention, 0u32, data, reply)
    }

    fn disable(
        &self,
        intention: Intention,
        data: &Buffer,
        reply: &mut Buffer,
    ) -> (result: FusionResult<i32>)
        ensures
            self.transmitted(
                CommonAction::Disable,
                intention,
                0,
                *data,
                *old(reply),
                *final(reply),
                result,
            ),
    {
        self.send_request(CommonAction::Disable, intention, 0u32, data, reply)
    }

    fn start(
        &self,
        intention: Intention,
        data: &Buffer,
        reply: &mut Buffer,
    ) -> (result: FusionResult<i32>)
        ensures
            self.transmitted(
                CommonAction::Start,
                intention,
                0,
                *data,
                *old(reply),
                *final(reply),
                result,
            ),
    {
        self.send_request(CommonAction::Start, intention, 0u32, data, reply)
    }

    fn stop(
        &self,
        intention: Intention,
        data: &Buffer,
        reply: &mut Buffer,
    ) -> (result: FusionResult<i32>)
        ensures
            self.transmitted(
                CommonAction::Stop,
                intention,
                0,
                *data,
                *old(reply),
                *final(reply),
                result,
            ),
    {
        self.send_request(CommonAction::Stop, intention, 0u32, data, reply)
    }

    fn add_watch(
        &self,
        intention: Intention,
        id: u32,
        data: &Buffer,
        reply: &mut Buffer,
    ) -> (result: FusionResult<i32>)
        ensures
            self.transmitted(
                CommonAction::AddWatch,
                intention,
                id,
                *data,
                *old(reply),
                *final(reply),
                result,
            ),
    {
        self.send_request(CommonAction::AddWatch, intention, id, data, reply)
    }

    fn remove_watch(
        &self,
        intention: Intention,
        id: u32,
        data: &Buffer,
        reply: &mut Buffer,
    ) -> (result: FusionResult<i32>)
        ensures
            self.transmitted(
                CommonAction::RemoveWatch,
                intention,
                id,
                *data,
                *old(reply),
                *final(reply),
                result,
            ),
    {
        self.send_request(CommonAction::RemoveWatch, intention, id, data, reply)
    }

    fn set_param(
        &self,
        intention: Intention,
        id: u32,
        data: &Buffer,
        reply: &mut Buffer,
    ) -> (result: FusionResult<i32>)
        ensures
            self.transmitted(
                CommonAction::SetParam,
                intention,
                id,
                *data,
                *old(reply),
                *final(reply),
                result,
            ),
    {
        self.send_request(CommonAction::SetParam, intention, id, data, reply)
    }

    fn get_param(
        &self,
        intention: Intention,
        id: u32,
        data: &Buffer,
        reply: &mut Buffer,
    ) -> (result: FusionResult<i32>)
        ensures
            self.transmitted(
                CommonAction::GetParam,
                intention,
                id,
                *data,
                *old(reply),
                *final(reply),
                result,
            ),
    {
        self.send_request(CommonAction::GetParam, intention, id, data, reply)
    }

    fn control(
        &self,
        intention: Intention,
        id: u32,
        data: &Buffer,
        reply: &mut Buffer,
    ) -> (result: FusionResult<i32>)
        ensures
            self.transmitted(
                CommonAction::Control,
                intention,
                id,
                *data,
                *old(reply),
                *final(reply),
                result,
            ),
    {
        self.send_request(CommonAction::Control, intention, id, data, reply)
    }
}

} // verus!
