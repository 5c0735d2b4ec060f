//! The request code: how an action, an intention and a parameter id share one
//! 32-bit integer.
//!
//! Read as a number, a request code is
//!
//! ```text
//! action * 2^20  +  intention * 2^12  +  param_id
//! ```
//!
//! with `param_id < 2^12`, `intention < 2^8` and `action < 2^4`, so each of
//! the three occupies a bit field of its own: bits 0..=11 carry the parameter
//! id, bits 12..=19 the intention and bits 20..=23 the action. Bits 24..=31
//! belong to no field; the encoder leaves them clear and the decoder does not
//! look at them. Both ends of a link must agree on this layout.

use vstd::prelude::*;
use crate::error::DecodeError;

verus! {

/// Width of the parameter field.
pub const PARAM_BITS: u32 = 12;

/// Width of the intention field.
pub const INTENTION_BITS: u32 = 8;

/// Width of the action field.
pub const ACTION_BITS: u32 = 4;

/// Position of the lowest bit of the intention field.
pub const INTENTION_SHIFT: u32 = 12;

/// Position of the lowest bit of the action field.
pub const ACTION_SHIFT: u32 = 20;

/// The parameter field when it is moved to bit 0; also the largest parameter
/// id that a request code can carry.
pub const PARAM_MASK: u32 = 0xfff;

/// The intention field when it is moved to bit 0.
pub const INTENTION_MASK: u32 = 0xff;

/// The action field when it is moved to bit 0.
pub const ACTION_MASK: u32 = 0xf;

/// The three fields together; no composed request code is larger.
pub const CODE_MASK: u32 = 0xff_ffff;

/// The largest intention id that names a capability. The one remaining
/// pattern of the intention field, all ones, is reserved and never decodes.
pub const MAX_INTENTION: u32 = 0xfe;

/// The largest action number.
pub const MAX_ACTION: u32 = 8;

/// What a request asks the service to do.
#[derive(Clone, Copy, Debug, PartialEq, Eq, Structural)]
pub enum CommonAction {
    Enable,
    Disable,
    Start,
    Stop,
    AddWatch,
    RemoveWatch,
    SetParam,
    GetParam,
    Control,
}

impl CommonAction {
    /// The number that stands for this action in a request code.
    pub open spec fn number(self) -> nat {
        match self {
            CommonAction::Enable => 0,
            CommonAction::Disable => 1,
            CommonAction::Start => 2,
            CommonAction::Stop => 3,
            CommonAction::AddWatch => 4,
            CommonAction::RemoveWatch => 5,
            CommonAction::SetParam => 6,
            CommonAction::GetParam => 7,
            CommonAction::Control => 8,
        }
    }

    /// The action that `n` stands for, if any.
    pub open spec fn with_number(n: nat) -> Option<CommonAction> {
        if n == 0 {
            Some(CommonAction::Enable)
        } else if n == 1 {
            Some(CommonAction::Disable)
        } else if n == 2 {
            Some(CommonAction::Start)
        } else if n == 3 {
            Some(CommonAction::Stop)
        } else if n == 4 {
            Some(CommonAction::AddWatch)
        } else if n == 5 {
            Some(CommonAction::RemoveWatch)
        } else if n == 6 {
            Some(CommonAction::SetParam)
        } else if n == 7 {
            Some(CommonAction::GetParam)
        } else if n == 8 {
            Some(CommonAction::Control)
        } else {
            None
        }
    }

    /// Whether the handler of this action is handed the parameter id. The
    /// other actions have none; on the wire their parameter field is 0.
    pub open spec fn spec_takes_param(self) -> bool {
        self.number() >= CommonAction::AddWatch.number()
    }

    /// The number that stands for this action in a request code.
    pub fn to_u32(self) -> (n: u32)
        ensures
            n == self.number(),
            n <= MAX_ACTION,
    {
        match self {
            CommonAction::Enable => 0,
            CommonAction::Disable => 1,
            CommonAction::Start => 2,
            CommonAction::Stop => 3,
            CommonAction::AddWatch => 4,
            CommonAction::RemoveWatch => 5,
            CommonAction::SetParam => 6,
            CommonAction::GetParam => 7,
            CommonAction::Control => 8,
        }
    }

    /// Reads an action number. Fails with `UnknownAction` exactly when `n`
    /// is larger than `MAX_ACTION`.
    pub fn from_u32(n: u32) -> (r: Result<CommonAction, DecodeError>)
        ensures
            r == action_or_error(n as nat),
            r is Ok <==> n <= MAX_ACTION,
            r matches Ok(action) ==> action.number() == n,
            r matches Err(e) ==> e == DecodeError::UnknownAction,
    {
        match n {
            0 => Ok(CommonAction::Enable),
            1 => Ok(CommonAction::Disable),
            2 => Ok(CommonAction::Start),
            3 => Ok(CommonAction::Stop),
            4 => Ok(CommonAction::AddWatch),
            5 => Ok(CommonAction::RemoveWatch),
            6 => Ok(CommonAction::SetParam),
            7 => Ok(CommonAction::GetParam),
            8 => Ok(CommonAction::Control),
            _ => Err(DecodeError::UnknownAction),
        }
    }

    /// Whether the handler of this action is handed the parameter id.
    #[verifier::when_used_as_spec(spec_takes_param)]
    pub fn takes_param(self) -> (b: bool)
        ensures
            b == self.spec_takes_param(),
    {
        match self {
            CommonAction::Enable
            | CommonAction::Disable
            | CommonAction::Start
            | CommonAction::Stop => false,
            CommonAction::AddWatch
            | CommonAction::RemoveWatch
            | CommonAction::SetParam
            | CommonAction::GetParam
            | CommonAction::Control => true,
        }
    }
}

/// The action that the number `n` stands for, or the error that reports that
/// there is none.
pub open spec fn action_or_error(n: nat) -> Result<CommonAction, DecodeError> {
    match CommonAction::with_number(n) {
        Some(action) => Ok(action),
        None => Err(DecodeError::UnknownAction),
    }
}

/// The capability that a request is aimed at, named by its id.
///
/// Every value of this type holds an id from 0 to `MAX_INTENTION`.
#[derive(Clone, Copy, Debug, PartialEq, Eq, Structural)]
pub struct Intention {
    id: u32,
}

impl View for Intention {
    type V = nat;

    /// The id.
    closed spec fn view(&self) -> nat {
        self.id as nat
    }
}

impl Intention {
    /// Holds of every intention that a program can hold: the id is in range.
    #[verifier::type_invariant]
    pub open spec fn wf(self) -> bool {
        self@ <= MAX_INTENTION
    }

    /// The intention with the id `id`. Fails with `UnknownIntention` exactly
    /// when `id` is larger than `MAX_INTENTION`.
    pub fn new(id: u32) -> (r: Result<Intention, DecodeError>)
        ensures
            r == intention_or_error(id as nat),
            r is Ok <==> id <= MAX_INTENTION,
            r matches Ok(intention) ==> intention@ == id && intention.wf(),
            r matches Err(e) ==> e == DecodeError::UnknownIntention,
    {
        if id <= MAX_INTENTION {
            Ok(Intention { id })
        } else {
            Err(DecodeError::UnknownIntention)
        }
    }

    /// The id.
    pub fn id(self) -> (id: u32)
        ensures
            id == self@,
            id <= MAX_INTENTION,
    {
        proof {
            use_type_invariant(self);
        }
        self.id
    }

    /// Two intentions with the same id are the same intention.
    pub proof fn lemma_view_injective(self, other: Intention)
        requires
            self@ == other@,
        ensures
            self == other,
    {
    }
}

/// The intention with the id `n`.
pub closed spec fn intention_with_id(n: nat) -> Intention {
    Intention { id: n as u32 }
}

/// The intention with the id `n`, or the error that reports that no
/// capability has that id.
pub open spec fn intention_or_error(n: nat) -> Result<Intention, DecodeError> {
    if n <= MAX_INTENTION {
        Ok(intention_with_id(n))
    } else {
        Err(DecodeError::UnknownIntention)
    }
}

/// `intention_with_id` is the inverse of the view, on ids that fit the type.
pub proof fn lemma_intention_with_id(n: nat)
    requires
        n <= u32::MAX,
    ensures
        intention_with_id(n)@ == n,
{
}

/// The request code that stands for `action` on `intention` with the
/// parameter id `param_id`, as a number. Of a parameter id beyond
/// `PARAM_MASK` only the remainder modulo 2^12 is carried.
pub open spec fn request_code(action: CommonAction, intention: Intention, param_id: u32) -> nat {
    action.number() * 0x10_0000 + intention@ * 0x1000 + (param_id as nat) % 0x1000
}

/// The number in the action field of `code`.
pub open spec fn action_field(code: nat) -> nat {
    (code / 0x10_0000) % 0x10
}

/// The number in the intention field of `code`.
pub open spec fn intention_field(code: nat) -> nat {
    (code / 0x1000) % 0x100
}

/// The number in the parameter field of `code`.
pub open spec fn param_field(code: nat) -> nat {
    code % 0x1000
}

/// Packs an action, an intention and a parameter id into a request code.
///
/// Every parameter id up to `PARAM_MASK` is carried whole; of a larger one
/// the bits above the parameter field are dropped, so that no argument can
/// reach into another's field.
pub fn compose_param_id(action: CommonAction, intention: Intention, param_id: u32) -> (code: u32)
    ensures
        code == request_code(action, intention, param_id),
        code <= CODE_MASK,
        action_field(code as nat) == action.number(),
        intention_field(code as nat) == intention@,
        param_field(code as nat) == param_id % 0x1000,
        param_id <= PARAM_MASK ==> param_field(code as nat) == param_id,
{
    let a: u32 = action.to_u32();
    let i: u32 = intention.id();
    let code: u32 = ((a & ACTION_MASK) << ACTION_SHIFT) | ((i & INTENTION_MASK) << INTENTION_SHIFT)
        | (param_id & PARAM_MASK);
    assert(code == a * 0x10_0000 + i * 0x1000 + param_id % 0x1000 && code <= 0xff_ffff)
        by (bit_vector)
        requires
            a <= 8,
            i <= 0xfe,
            code == ((a & 0xf) << 20) | ((i & 0xff) << 12) | (param_id & 0xfff),
    ;
    code
}

/// Reads the action out of a request code. Fails with `UnknownAction`
/// exactly when the action field holds a number above `MAX_ACTION`.
pub fn split_action(code: u32) -> (r: Result<CommonAction, DecodeError>)
    ensures
        r == action_or_error(action_field(code as nat)),
        r is Ok <==> action_field(code as nat) <= MAX_ACTION,
        r matches Ok(action) ==> action.number() == action_field(code as nat),
        r matches Err(e) ==> e == DecodeError::UnknownAction,
{
    let field: u32 = (code >> ACTION_SHIFT) & ACTION_MASK;
    assert(field == (code / 0x10_0000) % 0x10) by (bit_vector)
        requires
            field == (code >> 20) & 0xf,
    ;
    CommonAction::from_u32(field)
}

/// Reads the intention out of a request code. Fails with `UnknownIntention`
/// exactly when the intention field holds a number above `MAX_INTENTION`.
pub fn split_intention(code: u32) -> (r: Result<Intention, DecodeError>)
    ensures
        r == intention_or_error(intention_field(code as nat)),
        r is Ok <==> intention_field(code as nat) <= MAX_INTENTION,
        r matches Ok(intention) ==> intention@ == intention_field(code as nat),
        r matches Err(e) ==> e == DecodeError::UnknownIntention,
{
    let field: u32 = (code >> INTENTION_SHIFT) & INTENTION_MASK;
    assert(field == (code / 0x1000) % 0x100) by (bit_vector)
        requires
            field == (code >> 12) & 0xff,
    ;
    Intention::new(field)
}

/// Reads the parameter id out of a request code. Every code has one.
pub fn split_param(code: u32) -> (param_id: u32)
    ensures
        param_id == param_field(code as nat),
        param_id <= PARAM_MASK,
{
    let field: u32 = code & PARAM_MASK;
    assert(field == code % 0x1000) by (bit_vector)
        requires
            field == code & 0xfff,
    ;
    field
}

/// Each argument of `request_code` lands in its own field, whatever the
/// other two are.
pub proof fn lemma_request_code_fields(action: CommonAction, intention: Intention, param_id: u32)
    requires
        intention.wf(),
    ensures
        request_code(action, intention, param_id) <= CODE_MASK,
        action_field(request_code(action, intention, param_id)) == action.number(),
        intention_field(request_code(action, intention, param_id)) == intention@,
        param_field(request_code(action, intention, param_id)) == param_id % 0x1000,
{
    let a: u32 = action.number() as u32;
    let i: u32 = intention@ as u32;
    let code: u32 = (a * 0x10_0000 + i * 0x1000 + param_id % 0x1000) as u32;
    assert(a <= 8);
    assert({
        &&& code == a * 0x10_0000 + i * 0x1000 + param_id % 0x1000
        &&& code < 0x100_0000
        &&& (code / 0x10_0000) % 0x10 == a
        &&& (code / 0x1000) % 0x100 == i
        &&& code % 0x1000 == param_id % 0x1000
    }) by (bit_vector)
        requires
            a <= 8,
            i <= 0xfe,
            code == (a * 0x10_0000 + i * 0x1000 + param_id % 0x1000) as u32,
    ;
}

/// Different actions have different numbers, and `with_number` finds the
/// action again from its number.
pub proof fn lemma_action_numbers(action: CommonAction, other: CommonAction)
    ensures
        action.number() <= MAX_ACTION,
        CommonAction::with_number(action.number()) == Some(action),
        action.number() == other.number() ==> action == other,
{
}

/// Round trip: composing a request code from an action, an intention and a
/// parameter id no larger than `PARAM_MASK`, and then splitting that code,
/// gives back the same action, the same intention and the same parameter id.
pub proof fn lemma_round_trip(action: CommonAction, intention: Intention, param_id: u32)
    requires
        intention.wf(),
        param_id <= PARAM_MASK,
    ensures
        action_or_error(action_field(request_code(action, intention, param_id))) == Ok::<
            CommonAction,
            DecodeError,
        >(action),
        intention_or_error(intention_field(request_code(action, intention, param_id))) == Ok::<
            Intention,
            DecodeError,
        >(intention),
        param_field(request_code(action, intention, param_id)) == param_id,
{
    lemma_request_code_fields(action, intention, param_id);
    lemma_action_numbers(action, action);
    intention.lemma_view_injective(intention_with_id(intention@));
}

/// No collision: two triples of an action, an intention and a parameter id no
/// larger than `PARAM_MASK` that differ anywhere, be it in one field or in
/// several, have different request codes.
pub proof fn lemma_no_collision(
    action1: CommonAction,
    intention1: Intention,
    param_id1: u32,
    action2: CommonAction,
    intention2: Intention,
    param_id2: u32,
)
    requires
        intention1.wf(),
        intention2.wf(),
        param_id1 <= PARAM_MASK,
        param_id2 <= PARAM_MASK,
        action1 != action2 || intention1 != intention2 || param_id1 != param_id2,
    ensures
        request_code(action1, intention1, param_id1) != request_code(
            action2,
            intention2,
            param_id2,
        ),
{
    lemma_request_code_fields(action1, intention1, param_id1);
    lemma_request_code_fields(action2, intention2, param_id2);
    lemma_action_numbers(action1, action2);
    if intention1@ == intention2@ {
        intention1.lemma_view_injective(intention2);
    }
}

/// Every code that decodes is a composed code: where the action field and the
/// intention field of `code` both decode, composing the decoded action, the
/// decoded intention and the parameter field gives `code` again, up to the
/// bits above bit 23, which belong to no field.
pub proof fn lemma_split_then_compose(code: u32, action: CommonAction, intention: Intention)
    requires
        action_or_error(action_field(code as nat)) == Ok::<CommonAction, DecodeError>(action),
        intention_or_error(intention_field(code as nat)) == Ok::<Intention, DecodeError>(
            intention,
        ),
    ensures
        request_code(action, intention, param_field(code as nat) as u32) == code % 0x100_0000,
{
    let a: u32 = (code / 0x10_0000) % 0x10;
    let i: u32 = (code / 0x1000) % 0x100;
    let p: u32 = code % 0x1000;
    assert(action.number() == a);
    assert(intention@ == i) by {
        lemma_intention_with_id(i as nat);
    }
    assert(a * 0x10_0000 + i * 0x1000 + p % 0x1000 == code % 0x100_0000) by (bit_vector)
        requires
            a == (code / 0x10_0000) % 0x10,
            i == (code / 0x1000) % 0x100,
            p == code % 0x1000,
    ;
}

} // verus!
