//! The order in which the coupon handlers look things up and decide: from what
//! is known so far to the next step.
use vstd::prelude::*;

use crate::coupons::{
    apply_refusal, check_admin, check_apply_request, check_coupon, check_create_request,
    check_redeem_request, check_scope, check_user_uses, coupon_refusal, coupon_uses_overflow,
    create_refusal, decide_redemption, is_admin, redemption, scope_refusal, stored_code,
    uses_overflow, uses_per_user, ApplyCouponRequest, CreateCouponRequest, RedeemCouponRequest,
    Redemption,
};
use crate::error::{not_found, Error, Fault};
use crate::json::json_of;
use crate::time::Timestamp;

verus! {

// --------------------------------------------------------------------- applying

/// What is known when a coupon is applied; nothing where it was not looked up
/// yet.
pub struct ApplyAnswers<'a> {
    /// The coupon, itself nothing where the lookup failed.
    pub coupon: Option<Option<&'a serde_json::Value>>,
    /// How often the user used the coupon.
    pub uses: Option<i64>,
}

/// The next step in applying a coupon.
#[derive(Debug)]
pub enum ApplyStep {
    /// The coupon of this code is looked up.
    LookUpCoupon(String),
    /// The uses of the coupon by the user are counted.
    CountUses,
    Refuse(Error),
    /// The discount is computed and answered with.
    Answer,
}

/// An [`ApplyStep`] with its texts as characters.
pub enum ApplyStepView {
    LookUpCoupon(Seq<char>),
    CountUses,
    Refuse(Fault),
    Answer,
}

impl View for ApplyStep {
    type V = ApplyStepView;

    open spec fn view(&self) -> ApplyStepView {
        match self {
            ApplyStep::LookUpCoupon(code) => ApplyStepView::LookUpCoupon(code@),
            ApplyStep::CountUses => ApplyStepView::CountUses,
            ApplyStep::Refuse(e) => ApplyStepView::Refuse(e@),
            ApplyStep::Answer => ApplyStepView::Answer,
        }
    }
}

/// The next step in applying a coupon: first the request decides, next the
/// coupon, next the user's uses of it, next the order.
pub open spec fn apply_step(
    req: ApplyCouponRequest,
    answers: ApplyAnswers,
    now: Timestamp,
) -> ApplyStepView {
    if apply_refusal(req) is Some {
        ApplyStepView::Refuse(apply_refusal(req)->0)
    } else {
        match answers.coupon {
            None => ApplyStepView::LookUpCoupon(stored_code(req.code@)),
            Some(None) => ApplyStepView::Refuse(
                Fault::NotFound("Coupon invalid or unavailable"@),
            ),
            Some(Some(c)) => {
                let coupon = json_of(*c);
                if coupon_refusal(coupon, now) is Some {
                    ApplyStepView::Refuse(coupon_refusal(coupon, now)->0)
                } else if answers.uses is None {
                    ApplyStepView::CountUses
                } else if answers.uses->0 >= uses_per_user(coupon) {
                    ApplyStepView::Refuse(
                        Fault::Validation("You've reached the maximum uses for this coupon"@),
                    )
                } else if scope_refusal(req, coupon) is Some {
                    ApplyStepView::Refuse(scope_refusal(req, coupon)->0)
                } else {
                    ApplyStepView::Answer
                }
            },
        }
    }
}

/// The next step in applying a coupon, from what is known.
pub fn next_apply_step(req: &ApplyCouponRequest, answers: &ApplyAnswers, now: Timestamp) -> (r:
    ApplyStep)
    ensures
        r@ == apply_step(*req, *answers, now),
{
    let code = match check_apply_request(req) {
        Ok(c) => c,
        Err(e) => return ApplyStep::Refuse(e),
    };
    let coupon = match answers.coupon {
        None => return ApplyStep::LookUpCoupon(code),
        Some(None) => return ApplyStep::Refuse(not_found("Coupon invalid or unavailable")),
        Some(Some(c)) => c,
    };
    if let Err(e) = check_coupon(coupon, now) {
        return ApplyStep::Refuse(e);
    }
    match answers.uses {
        None => return ApplyStep::CountUses,
        Some(n) => {
            if let Err(e) = check_user_uses(coupon, n) {
                return ApplyStep::Refuse(e);
            }
        },
    }
    match check_scope(req, coupon) {
        Ok(()) => ApplyStep::Answer,
        Err(e) => ApplyStep::Refuse(e),
    }
}

/// A coupon is applied only where it is active, has not lapsed, is not used
/// up, was not used by the user as often as they may, and fits the order.
pub proof fn law_applied_only_after_every_check(
    req: ApplyCouponRequest,
    answers: ApplyAnswers,
    now: Timestamp,
)
    requires
        apply_step(req, answers, now) == ApplyStepView::Answer,
    ensures
        apply_refusal(req) is None,
        answers.coupon matches Some(Some(c)) && {
            let coupon = json_of(*c);
            &&& coupon_refusal(coupon, now) is None
            &&& answers.uses matches Some(n) && n < uses_per_user(coupon)
            &&& scope_refusal(req, coupon) is None
        },
{
}

// --------------------------------------------------------------------- creating

/// What is known when a coupon is created; nothing where it was not looked up
/// yet.
pub struct CreateAnswers<'a> {
    /// The user who asks, itself nothing where the lookup failed.
    pub user: Option<Option<&'a serde_json::Value>>,
    /// The coupon of the same code, `null` for none.
    pub existing: Option<&'a serde_json::Value>,
}

/// The next step in creating a coupon.
#[derive(Debug)]
pub enum CreateStep {
    LookUpUser,
    /// The coupon of this code is looked up.
    LookUpCode(String),
    Refuse(Error),
    /// The coupon is created, unless its code is taken.
    Create,
}

/// A [`CreateStep`] with its texts as characters.
pub enum CreateStepView {
    LookUpUser,
    LookUpCode(Seq<char>),
    Refuse(Fault),
    Create,
}

impl View for CreateStep {
    type V = CreateStepView;

    open spec fn view(&self) -> CreateStepView {
        match self {
            CreateStep::LookUpUser => CreateStepView::LookUpUser,
            CreateStep::LookUpCode(code) => CreateStepView::LookUpCode(code@),
            CreateStep::Refuse(e) => CreateStepView::Refuse(e@),
            CreateStep::Create => CreateStepView::Create,
        }
    }
}

/// The next step in creating a coupon: first the role of the user decides,
/// next the request.
pub open spec fn create_step(req: CreateCouponRequest, answers: CreateAnswers) -> CreateStepView {
    match answers.user {
        None => CreateStepView::LookUpUser,
        Some(None) => CreateStepView::Refuse(Fault::NotFound("User not found"@)),
        Some(Some(u)) => if !is_admin(json_of(*u)) {
            CreateStepView::Refuse(Fault::Forbidden("Admin access required"@))
        } else if create_refusal(req) is Some {
            CreateStepView::Refuse(create_refusal(req)->0)
        } else if answers.existing is None {
            CreateStepView::LookUpCode(stored_code(req.code@))
        } else {
            CreateStepView::Create
        },
    }
}

/// The next step in creating a coupon, from what is known.
pub fn next_create_step(req: &CreateCouponRequest, answers: &CreateAnswers) -> (r: CreateStep)
    requires
        req.discount_value.valid(),
    ensures
        r@ == create_step(*req, *answers),
{
    let user = match answers.user {
        None => return CreateStep::LookUpUser,
        Some(None) => return CreateStep::Refuse(not_found("User not found")),
        Some(Some(u)) => u,
    };
    if let Err(e) = check_admin(user) {
        return CreateStep::Refuse(e);
    }
    let code = match check_create_request(req) {
        Ok(c) => c,
        Err(e) => return CreateStep::Refuse(e),
    };
    match answers.existing {
        None => CreateStep::LookUpCode(code),
        Some(_) => CreateStep::Create,
    }
}

/// Only an administrator creates coupons.
pub proof fn law_only_admins_create(req: CreateCouponRequest, answers: CreateAnswers)
    requires
        create_step(req, answers) == CreateStepView::Create,
    ensures
        answers.user matches Some(Some(u)) && is_admin(json_of(*u)),
        create_refusal(req) is None,
{
}

// -------------------------------------------------------------------- redeeming

/// The next step in redeeming a coupon.
#[derive(Debug)]
pub enum RedeemStep {
    /// The coupon of this code is looked up.
    LookUpCoupon(String),
    Refuse(Error),
    /// What redeeming comes to.
    Settle(Redemption),
}

/// A [`RedeemStep`] with its texts as characters.
pub enum RedeemStepView {
    LookUpCoupon(Seq<char>),
    Refuse(Fault),
    Settle(Redemption),
}

impl View for RedeemStep {
    type V = RedeemStepView;

    open spec fn view(&self) -> RedeemStepView {
        match self {
            RedeemStep::LookUpCoupon(code) => RedeemStepView::LookUpCoupon(code@),
            RedeemStep::Refuse(e) => RedeemStepView::Refuse(e@),
            RedeemStep::Settle(d) => RedeemStepView::Settle(*d),
        }
    }
}

/// The next step in redeeming a coupon, where `coupon` is what the lookup
/// found, itself nothing where it failed.
pub open spec fn redeem_step(
    req: RedeemCouponRequest,
    coupon: Option<Option<&serde_json::Value>>,
    now: Timestamp,
) -> RedeemStepView {
    let code = stored_code(req.code@);
    if code.len() == 0 {
        RedeemStepView::Refuse(Fault::Validation("code is required"@))
    } else {
        match coupon {
            None => RedeemStepView::LookUpCoupon(code),
            Some(None) => RedeemStepView::Refuse(Fault::NotFound("Coupon not found"@)),
            Some(Some(c)) => match redemption(json_of(*c), now) {
                Ok(d) => RedeemStepView::Settle(d),
                Err(f) => RedeemStepView::Refuse(f),
            },
        }
    }
}

/// One more use of the coupon would be counted, but does not fit in `i64`.
pub open spec fn redeem_overflows(
    req: RedeemCouponRequest,
    coupon: Option<Option<&serde_json::Value>>,
    now: Timestamp,
) -> bool {
    &&& stored_code(req.code@).len() > 0
    &&& coupon matches Some(Some(c)) && uses_overflow(json_of(*c), now)
}

/// The next step in redeeming a coupon, from what is known.
pub fn next_redeem_step(
    req: &RedeemCouponRequest,
    coupon: Option<Option<&serde_json::Value>>,
    now: Timestamp,
) -> (r: RedeemStep)
    requires
        !redeem_overflows(*req, coupon, now),
    ensures
        r@ == redeem_step(*req, coupon, now),
{
    let code = match check_redeem_request(req) {
        Ok(c) => c,
        Err(e) => return RedeemStep::Refuse(e),
    };
    match coupon {
        None => RedeemStep::LookUpCoupon(code),
        Some(None) => RedeemStep::Refuse(not_found("Coupon not found")),
        Some(Some(c)) => match decide_redemption(c, now) {
            Ok(d) => RedeemStep::Settle(d),
            Err(e) => RedeemStep::Refuse(e),
        },
    }
}

/// The next step in redeeming a coupon, from what is known; nothing where the
/// number of its uses cannot be raised.
pub fn checked_redeem_step(
    req: &RedeemCouponRequest,
    coupon: Option<Option<&serde_json::Value>>,
    now: Timestamp,
) -> (r: Option<RedeemStep>)
    ensures
        match r {
            Some(s) => !redeem_overflows(*req, coupon, now) && s@ == redeem_step(*req, coupon, now),
            None => redeem_overflows(*req, coupon, now),
        },
{
    if let Ok(_) = check_redeem_request(req) {
        if let Some(Some(c)) = coupon {
            if coupon_uses_overflow(c, now) {
                return None;
            }
        }
    }
    Some(next_redeem_step(req, coupon, now))
}

/// A coupon is applied wherever every check passes: once the coupon and the
/// uses of the user are known, the answer is its discount exactly where the
/// request is taken, the coupon can be used, the user has a use left and the
/// order fits it.
pub proof fn law_applied_where_every_check_passes(
    req: ApplyCouponRequest,
    coupon: &serde_json::Value,
    uses: i64,
    now: Timestamp,
)
    ensures
        ({
            let known = ApplyAnswers { coupon: Some(Some(coupon)), uses: Some(uses) };
            let j = json_of(*coupon);
            apply_step(req, known, now) == ApplyStepView::Answer <==> {
                &&& apply_refusal(req) is None
                &&& coupon_refusal(j, now) is None
                &&& uses < uses_per_user(j)
                &&& scope_refusal(req, j) is None
            }
        }),
{
}

/// A coupon is created wherever an administrator asks for one that can be:
/// anyone else is refused, whatever they ask for.
pub proof fn law_created_where_allowed(
    req: CreateCouponRequest,
    user: &serde_json::Value,
    existing: &serde_json::Value,
)
    ensures
        ({
            let known = CreateAnswers { user: Some(Some(user)), existing: Some(existing) };
            &&& create_step(req, known) == CreateStepView::Create <==> is_admin(json_of(*user))
                && create_refusal(req) is None
            &&& !is_admin(json_of(*user)) ==> create_step(req, known) == CreateStepView::Refuse(
                Fault::Forbidden("Admin access required"@),
            )
        }),
{
}

/// A coupon that was found under a code is settled as redeeming it comes to; a
/// request without a code is refused, and a failed lookup too.
pub proof fn law_redeemed_as_decided(
    req: RedeemCouponRequest,
    coupon: &serde_json::Value,
    now: Timestamp,
)
    requires
        crate::text::uppercase(crate::text::trimmed(req.code@)).len() > 0,
    ensures
        redemption(json_of(*coupon), now) matches Ok(d) ==> redeem_step(
            req,
            Some(Some(coupon)),
            now,
        ) == RedeemStepView::Settle(d),
        redemption(json_of(*coupon), now) matches Err(f) ==> redeem_step(
            req,
            Some(Some(coupon)),
            now,
        ) == RedeemStepView::Refuse(f),
        redeem_step(req, Some(None), now) == RedeemStepView::Refuse(
            Fault::NotFound("Coupon not found"@),
        ),
        redeem_step(req, None, now) == RedeemStepView::LookUpCoupon(
            crate::text::uppercase(crate::text::trimmed(req.code@)),
        ),
{
}

/// Applying a coupon looks up what it needs in order: the coupon by its code,
/// and the uses of the user. Who is refused is told why at once.
pub proof fn law_applying_asks_in_order(
    req: ApplyCouponRequest,
    answers: ApplyAnswers,
    now: Timestamp,
)
    ensures
        ({
            let step = apply_step(req, answers, now);
            &&& apply_refusal(req) matches Some(f) ==> step == ApplyStepView::Refuse(f)
            &&& apply_refusal(req) is None ==> {
                &&& answers.coupon is None ==> step == ApplyStepView::LookUpCoupon(
                    crate::text::uppercase(crate::text::trimmed(req.code@)),
                )
                &&& answers.coupon matches Some(Some(c)) ==> {
                    let j = json_of(*c);
                    &&& coupon_refusal(j, now) matches Some(f) ==> step == ApplyStepView::Refuse(f)
                    &&& coupon_refusal(j, now) is None && answers.uses is None ==> step
                        == ApplyStepView::CountUses
                    &&& coupon_refusal(j, now) is None ==> (answers.uses matches Some(n) ==> {
                        &&& n >= uses_per_user(j) ==> step == ApplyStepView::Refuse(
                            Fault::Validation("You've reached the maximum uses for this coupon"@),
                        )
                        &&& n < uses_per_user(j) ==> (scope_refusal(req, j) matches Some(f) ==> step
                            == ApplyStepView::Refuse(f))
                    })
                }
            }
        }),
        apply_refusal(req) is None && answers.coupon == Some(None::<&serde_json::Value>)
            ==> apply_step(req, answers, now) == ApplyStepView::Refuse(
            Fault::NotFound("Coupon invalid or unavailable"@),
        ),
{
}

/// Creating a coupon looks up the user first and then whether its code is
/// taken, and refuses a coupon that cannot be.
pub proof fn law_creating_asks_in_order(req: CreateCouponRequest, answers: CreateAnswers)
    ensures
        ({
            let step = create_step(req, answers);
            &&& answers.user is None ==> step == CreateStepView::LookUpUser
            &&& answers.user == Some(None::<&serde_json::Value>) ==> step == CreateStepView::Refuse(
                Fault::NotFound("User not found"@),
            )
            &&& answers.user matches Some(Some(u)) ==> (is_admin(json_of(*u)) ==> {
                &&& create_refusal(req) matches Some(f) ==> step == CreateStepView::Refuse(f)
                &&& create_refusal(req) is None && answers.existing is None ==> step
                    == CreateStepView::LookUpCode(
                    crate::text::uppercase(crate::text::trimmed(req.code@)),
                )
            })
        }),
{
}

} // verus!
