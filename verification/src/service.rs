//! The service interface and the router that serves it.
//!
//! The router takes one request code with its two buffers, decodes the code
//! and makes the one handler call that the code asks for. It keeps nothing
//! from one request to the next.

use vstd::prelude::*;
use crate::buffer::Buffer;
use crate::error::{DecodeError, FusionResult};
use crate::identity::{
    action_field, action_or_error, intention_field, intention_or_error, lemma_request_code_fields,
    lemma_round_trip, param_field, request_code, split_action, split_intention, split_param,
    CommonAction, Intention, PARAM_MASK,
};

verus! {

/// The nine operations of the device-status service.
///
/// A service implements them to be served by `on_remote_request`; a proxy
/// implements them by sending each one to a remote service. Each operation
/// reads its arguments from `data` and writes its answer to `reply`. `Ok`
/// carries a status, `Err` an error code; neither means anything to the
/// router.
pub trait IDeviceStatus {
    /// What one operation of this implementation may do: `served(action,
    /// intention, id, data, before, after, result)` holds where the operation
    /// named by `action`, called with `intention`, the parameter id `id` and
    /// the request `data` while the reply buffer held `before`, may leave
    /// `after` in the reply buffer and return `result`. For the four
    /// operations without a parameter id, `id` is 0.
    ///
    /// An implementation states here what its operations guarantee. One that
    /// states nothing promises nothing: every outcome counts as served.
    open spec fn served(
        &self,
        action: CommonAction,
        intention: Intention,
        id: u32,
        data: Buffer,
        before: Buffer,
        after: Buffer,
        result: FusionResult<i32>,
    ) -> bool {
        true
    }

    /// Switches the capability on.
    fn enable(
        &self,
        intention: Intention,
        data: &Buffer,
        reply: &mut Buffer,
    ) -> (result: FusionResult<i32>)
        ensures
            self.served(
                CommonAction::Enable,
                intention,
                0,
                *data,
                *old(reply),
                *final(reply),
                result,
            ),
    ;

    /// Switches the capability off.
    fn disable(
        &self,
        intention: Intention,
        data: &Buffer,
        reply: &mut Buffer,
    ) -> (result: FusionResult<i32>)
        ensures
            self.served(
                CommonAction::Disable,
                intention,
                0,
                *data,
                *old(reply),
                *final(reply),
                result,
            ),
    ;

    /// Starts the capability's work.
    fn start(
        &self,
        intention: Intention,
        data: &Buffer,
        reply: &mut Buffer,
    ) -> (result: FusionResult<i32>)
        ensures
            self.served(
                CommonAction::Start,
                intention,
                0,
                *data,
                *old(reply),
                *final(reply),
                result,
            ),
    ;

    /// Stops the capability's work.
    fn stop(
        &self,
        intention: Intention,
        data: &Buffer,
        reply: &mut Buffer,
    ) -> (result: FusionResult<i32>)
        ensures
            self.served(
                CommonAction::Stop,
                intention,
                0,
                *data,
                *old(reply),
                *final(reply),
                result,
            ),
    ;

    /// Registers the watch `id` with the capability.
    fn add_watch(
        &self,
        intention: Intention,
        id: u32,
        data: &Buffer,
        reply: &mut Buffer,
    ) -> (result: FusionResult<i32>)
        ensures
            self.served(
                CommonAction::AddWatch,
                intention,
                id,
                *data,
                *old(reply),
                *final(reply),
                result,
            ),
    ;

    /// Removes the watch `id` from the capability.
    fn remove_watch(
        &self,
        intention: Intention,
        id: u32,
        data: &Buffer,
        reply: &mut Buffer,
    ) -> (result: FusionResult<i32>)
        ensures
            self.served(
                CommonAction::RemoveWatch,
                intention,
                id,
                *data,
                *old(reply),
                *final(reply),
                result,
            ),
    ;

    /// Sets the capability's parameter `id`.
    fn set_param(
        &self,
        intention: Intention,
        id: u32,
        data: &Buffer,
        reply: &mut Buffer,
    ) -> (result: FusionResult<i32>)
        ensures
            self.served(
                CommonAction::SetParam,
                intention,
                id,
                *data,
                *old(reply),
                *final(reply),
                result,
            ),
    ;

    /// Reads the capability's parameter `id`.
    fn get_param(
        &self,
        intention: Intention,
        id: u32,
        data: &Buffer,
        reply: &mut Buffer,
    ) -> (result: FusionResult<i32>)
        ensures
            self.served(
                CommonAction::GetParam,
                intention,
                id,
                *data,
                *old(reply),
                *final(reply),
                result,
            ),
    ;

    /// Hands the capability the control request `id`.
    fn control(
        &self,
        intention: Intention,
        id: u32,
        data: &Buffer,
        reply: &mut Buffer,
    ) -> (result: FusionResult<i32>)
        ensures
            self.served(
                CommonAction::Control,
                intention,
                id,
                *data,
                *old(reply),
                *final(reply),
                result,
            ),
    ;
}

/// A decoded request code.
#[derive(Clone, Copy, Debug, PartialEq, Eq, Structural)]
pub struct Request {
    /// The operation asked for.
    pub action: CommonAction,
    /// The capability it is aimed at.
    pub intention: Intention,
    /// The parameter field of the code, whether the action uses it or not.
    pub id: u32,
}

impl Request {
    /// The parameter id that the handler of this request's action is called
    /// with: the request's own where the action has one, otherwise 0.
    pub open spec fn spec_handler_id(self) -> u32 {
        if self.action.takes_param() {
            self.id
        } else {
            0
        }
    }

    /// The parameter id that the handler of this request's action is called
    /// with.
    #[verifier::when_used_as_spec(spec_handler_id)]
    pub fn handler_id(self) -> (id: u32)
        ensures
            id == self.spec_handler_id(),
    {
        if self.action.takes_param() {
            self.id
        } else {
            0
        }
    }
}

/// What `code` decodes to. The intention field is looked at first: a code
/// with two unknown fields is reported for its intention.
pub open spec fn decoded(code: u32) -> Result<Request, DecodeError> {
    match intention_or_error(intention_field(code as nat)) {
        Err(e) => Err(e),
        Ok(intention) => match action_or_error(action_field(code as nat)) {
            Err(e) => Err(e),
            Ok(action) => Ok(Request { action, intention, id: param_field(code as nat) as u32 }),
        },
    }
}

/// Decodes a request code. Fails with `UnknownIntention` where the intention
/// field is above `MAX_INTENTION`; otherwise fails with `UnknownAction` where
/// the action field is above `MAX_ACTION`; otherwise succeeds.
pub fn decode_request(code: u32) -> (r: Result<Request, DecodeError>)
    ensures
        r == decoded(code),
        r matches Ok(request) ==> {
            &&& request.action.number() == action_field(code as nat)
            &&& request.intention@ == intention_field(code as nat)
            &&& request.id == param_field(code as nat)
        },
{
    let intention = match split_intention(code) {
        Ok(intention) => intention,
        Err(e) => {
            return Err(e);
        },
    };
    let id: u32 = split_param(code);
    match split_action(code) {
        Ok(action) => Ok(Request { action, intention, id }),
        Err(e) => Err(e),
    }
}

/// What is composed is what is decoded: the request code of an action, an
/// intention and a parameter id no larger than `PARAM_MASK` decodes to that
/// action, that intention and that parameter id.
pub proof fn lemma_request_code_decodes(action: CommonAction, intention: Intention, id: u32)
    requires
        intention.wf(),
        id <= PARAM_MASK,
    ensures
        request_code(action, intention, id) <= u32::MAX,
        decoded(request_code(action, intention, id) as u32) == Ok::<Request, DecodeError>(
            Request { action, intention, id },
        ),
{
    lemma_round_trip(action, intention, id);
    lemma_request_code_fields(action, intention, id);
}

/// Serves one request: decodes `code` and makes the one call on `stub` that
/// it asks for.
///
/// A code that does not decode is answered with the status of its decode
/// error, and `reply` is left as it was. A code that decodes is answered by
/// the operation of its action, called with the decoded intention and, where
/// the action has one, the decoded parameter id; what that operation writes
/// to `reply` and what it returns, `Ok` or `Err`, is handed on unchanged.
///
/// `reply` is meant to be empty on entry. The router itself neither reads
/// nor writes a payload byte.
pub fn on_remote_request(
    stub: &dyn IDeviceStatus,
    code: u32,
    data: &Buffer,
    reply: &mut Buffer,
) -> (result: FusionResult<i32>)
    ensures
        match decoded(code) {
            Ok(request) => stub.served(
                request.action,
                request.intention,
                request.handler_id(),
                *data,
                *old(reply),
                *final(reply),
                result,
            ),
            Err(e) => result == Err::<i32, i32>(e.status()) && *final(reply) == *old(reply),
        },
{
    let request = match decode_request(code) {
        Ok(request) => request,
        Err(e) => {
            return Err(e.status());
        },
    };
    let intention = request.intention;
    let id: u32 = request.id;
    match request.action {
        CommonAction::Enable => stub.enable(intention, data, reply),
        CommonAction::Disable => stub.disable(intention, data, reply),
        CommonAction::Start => stub.start(intention, data, reply),
        CommonAction::Stop => stub.stop(intention, data, reply),
        CommonAction::AddWatch => stub.add_watch(intention, id, data, reply),
        CommonAction::RemoveWatch => stub.remove_watch(intention, id, data, reply),
        CommonAction::SetParam => stub.set_param(intention, id, data, reply),
        CommonAction::GetParam => stub.get_param(intention, id, data, reply),
        CommonAction::Control => stub.control(intention, id, data, reply),
    }
}

} // verus!
