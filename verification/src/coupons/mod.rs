//! Coupons: their codes, what they take off an order, and how they are
//! applied, created and redeemed.
use vstd::prelude::*;
use vstd::utf8::*;

use crate::error::{forbidden, not_found, validation, Error, Fault};
use crate::fields;
use crate::json;
use crate::json::{json_of, jsons, Json};
use crate::text;
use crate::text::{joined, signed_decimal, views};
use crate::time;
use crate::time::{quotient, read_instant, stored_instant, Timestamp};

pub mod flow;

verus! {

/// The least that an order must come to after a discount, in cents.
pub const MIN_CHECKOUT_TOTAL_CENTS: i64 = 100;

/// The most that a percentage coupon takes off, in thousandths of a per cent.
pub const MAX_COUPON_DISCOUNT_MILLIPERCENT: i64 = 90_000;

// ------------------------------------------------------- requests and answers

/// The value of a discount, a decimal number of per cent or of cents.
#[derive(Debug, Clone, Copy, PartialEq, Eq)]
pub struct DiscountValue {
    /// The greatest whole number that is not above the value.
    pub floor: i64,
    /// Whether the value lies above that number.
    pub fractional: bool,
    /// The value in thousandths, rounded to the nearest.
    pub thousandths: i64,
}

/// The size up to which the thousandths of a number are exact.
pub const EXACT_VALUES: i64 = 8_796_093_022_208;

impl DiscountValue {
    /// The fields stand for one number: its thousandths lie from those of its
    /// floor to those of the next whole number, and are those of its floor
    /// where it has no fraction. Of very large numbers the thousandths are
    /// very large too.
    pub open spec fn valid(&self) -> bool {
        if self.floor >= EXACT_VALUES {
            self.thousandths >= 1000 * EXACT_VALUES
        } else if self.floor < -EXACT_VALUES {
            self.thousandths <= -1000 * EXACT_VALUES
        } else if self.fractional {
            1000 * self.floor <= self.thousandths <= 1000 * (self.floor + 1)
        } else {
            self.thousandths == 1000 * self.floor
        }
    }

    /// The value of these fields, where they stand for one number.
    pub fn checked(floor: i64, fractional: bool, thousandths: i64) -> (r: Option<DiscountValue>)
        ensures
            match r {
                Some(v) => v.valid() && v.floor == floor && v.fractional == fractional
                    && v.thousandths == thousandths,
                None => !(DiscountValue { floor, fractional, thousandths }).valid(),
            },
    {
        let fits = if floor >= EXACT_VALUES {
            thousandths >= 1000 * EXACT_VALUES
        } else if floor < -EXACT_VALUES {
            thousandths <= -1000 * EXACT_VALUES
        } else if fractional {
            1000 * floor <= thousandths && thousandths <= 1000 * (floor + 1)
        } else {
            thousandths == 1000 * floor
        };
        if fits {
            Some(DiscountValue { floor, fractional, thousandths })
        } else {
            None
        }
    }

    /// The value with its fraction dropped.
    pub open spec fn whole(&self) -> int {
        if self.floor < 0 && self.fractional {
            self.floor + 1
        } else {
            self.floor as int
        }
    }

    /// The value is more than zero.
    pub open spec fn is_positive(&self) -> bool {
        self.floor > 0 || (self.floor == 0 && self.fractional)
    }

    /// The value is at most `n`.
    pub open spec fn is_at_most(&self, n: int) -> bool {
        self.floor < n || (self.floor == n && !self.fractional)
    }

    /// The value with its fraction dropped.
    pub fn truncated(&self) -> (r: i64)
        ensures
            r == self.whole(),
    {
        if self.floor < 0 && self.fractional {
            self.floor + 1
        } else {
            self.floor
        }
    }

    /// Whether the value is more than zero.
    pub fn positive(&self) -> (r: bool)
        ensures
            r == self.is_positive(),
    {
        self.floor > 0 || (self.floor == 0 && self.fractional)
    }

    /// Whether the value lies from `low` to `high`.
    pub fn between(&self, low: i64, high: i64) -> (r: bool)
        ensures
            r == (self.floor >= low && self.is_at_most(high as int)),
    {
        self.floor >= low && (self.floor < high || (self.floor == high && !self.fractional))
    }
}

#[derive(Debug)]
pub struct ApplyCouponRequest {
    pub code: String,
    pub order_subtotal_cents: i64,
    pub seller_ids: Option<Vec<String>>,
    pub user_id: String,
}

#[derive(Debug)]
pub struct ApplyCouponResponse {
    pub valid: bool,
    pub discount_amount_cents: i64,
    pub discount_type: String,
    pub discount_value: DiscountValue,
    pub coupon_code: String,
}

#[derive(Debug)]
pub struct CreateCouponRequest {
    pub code: String,
    pub discount_type: String,
    pub discount_value: DiscountValue,
    pub min_order_cents: Option<i64>,
    pub max_uses_total: Option<i64>,
    pub max_uses_per_user: Option<i64>,
    pub expires_at: Option<String>,
    pub seller_id: Option<String>,
    pub is_active: bool,
    /// The administrator who asks.
    pub user_id: String,
}

/// A coupon is active unless the request says otherwise.
pub fn default_true() -> (r: bool)
    ensures
        r,
{
    true
}

#[derive(Debug)]
pub struct CreateCouponResponse {
    pub success: bool,
    pub coupon_code: String,
    pub created: bool,
}

#[derive(Debug)]
pub struct RedeemCouponRequest {
    pub code: String,
    pub order_id: String,
    pub user_id: String,
}

#[derive(Debug)]
pub struct RedeemCouponResponse {
    pub success: bool,
    pub redeemed: bool,
}

// ----------------------------------------------------------------------- codes

/// An ASCII capital letter or digit.
pub open spec fn is_code_char(c: char) -> bool {
    'A' <= c <= 'Z' || '0' <= c <= '9'
}

/// A coupon code: 4 to 20 ASCII capital letters and digits.
pub open spec fn is_code(s: Seq<char>) -> bool {
    4 <= s.len() <= 20 && forall|i: int| 0 <= i < s.len() ==> is_code_char(#[trigger] s[i])
}

/// Whether all of `v[from..to]` are ASCII capital letters and digits.
pub fn code_chars(v: &Vec<char>, from: usize, to: usize) -> (r: bool)
    requires
        from <= to <= v@.len(),
    ensures
        r == forall|i: int| from <= i < to ==> is_code_char(#[trigger] v@[i]),
{
    let mut i: usize = from;
    while i < to
        invariant
            from <= i <= to <= v@.len(),
            forall|j: int| from <= j < i ==> is_code_char(#[trigger] v@[j]),
        decreases to - i,
    {
        let c = v[i];
        if !(('A' <= c && c <= 'Z') || ('0' <= c && c <= '9')) {
            assert(!is_code_char(v@[i as int]));
            return false;
        }
        i = i + 1;
    }
    true
}

/// Whether a text is a coupon code.
pub fn is_valid_coupon_code(code: &str) -> (r: bool)
    ensures
        r == is_code(code@),
{
    let v = text::chars_of(code);
    let n: usize = v.len();
    n >= 4 && n <= 20 && code_chars(&v, 0, n)
}

/// A code as it is stored: trimmed, in capital letters.
pub open spec fn stored_code(raw: Seq<char>) -> Seq<char> {
    text::uppercase(text::trimmed(raw))
}

/// A code as it is stored.
pub fn normalize_code(raw: &str) -> (r: String)
    ensures
        r@ == stored_code(raw@),
        is_ascii_chars(text::trimmed(raw@)) ==> r@ == text::trimmed(raw@).map_values(
            |c: char| text::ascii_upper(c),
        ),
{
    text::to_uppercase(text::trim(raw))
}

// ------------------------------------------------------------------- discounts

/// The discount is a part of the subtotal.
pub open spec fn is_percentage(kind: Seq<char>) -> bool {
    kind == "percentage"@ || kind == "percent"@
}

/// The discount is an amount.
pub open spec fn is_fixed(kind: Seq<char>) -> bool {
    kind == "fixed_amount"@ || kind == "fixed_cents"@
}

/// The part of the subtotal that a coupon takes off, in thousandths of a per
/// cent.
pub open spec fn capped(value: DiscountValue) -> int {
    if value.thousandths < MAX_COUPON_DISCOUNT_MILLIPERCENT {
        value.thousandths as int
    } else {
        MAX_COUPON_DISCOUNT_MILLIPERCENT as int
    }
}

/// The capped part of the subtotal, its fraction of a cent dropped.
pub open spec fn percentage_of(value: DiscountValue, subtotal: int) -> int {
    quotient(subtotal * capped(value), 100_000)
}

/// The smaller of two numbers.
pub open spec fn lesser(a: int, b: int) -> int {
    if a < b {
        a
    } else {
        b
    }
}

/// What a coupon takes off an order, in cents. It leaves the least total.
pub open spec fn discount(kind: Seq<char>, value: DiscountValue, subtotal: int) -> int {
    if subtotal <= MIN_CHECKOUT_TOTAL_CENTS {
        0
    } else if is_percentage(kind) {
        lesser(percentage_of(value, subtotal), subtotal - MIN_CHECKOUT_TOTAL_CENTS)
    } else if is_fixed(kind) {
        lesser(value.whole(), subtotal - MIN_CHECKOUT_TOTAL_CENTS)
    } else {
        0
    }
}

/// The amounts on the way to a discount fit in `i64`.
pub open spec fn discount_fits(kind: Seq<char>, value: DiscountValue, subtotal: int) -> bool {
    subtotal > MIN_CHECKOUT_TOTAL_CENTS && is_percentage(kind) ==> {
        &&& i64::MIN <= subtotal * capped(value) <= i64::MAX
        &&& subtotal - percentage_of(value, subtotal) <= i64::MAX
    }
}

/// What a coupon takes off an order, in cents; nothing where an amount does
/// not fit in `i64`.
pub fn checked_discount(discount_type: &str, discount_value: DiscountValue, subtotal: i64) -> (r:
    Option<i64>)
    requires
        discount_value.valid(),
    ensures
        match r {
            Some(n) => discount_fits(discount_type@, discount_value, subtotal as int) && n
                == discount(discount_type@, discount_value, subtotal as int),
            None => !discount_fits(discount_type@, discount_value, subtotal as int),
        },
{
    if subtotal <= MIN_CHECKOUT_TOTAL_CENTS {
        return Some(0);
    }
    let most: i64 = subtotal - MIN_CHECKOUT_TOTAL_CENTS;
    if text::same(discount_type, "percentage") || text::same(discount_type, "percent") {
        let part: i64 = if discount_value.thousandths < MAX_COUPON_DISCOUNT_MILLIPERCENT {
            discount_value.thousandths
        } else {
            MAX_COUPON_DISCOUNT_MILLIPERCENT
        };
        let product: i64 = match subtotal.checked_mul(part) {
            Some(n) => n,
            None => return None,
        };
        let amount: i64 = product / 100_000;
        proof {
            assert(subtotal * part <= subtotal * 90_000) by (nonlinear_arith)
                requires
                    subtotal > 0,
                    part <= 90_000,
            ;
        }
        let left: i64 = match subtotal.checked_sub(amount) {
            Some(n) => n,
            None => return None,
        };
        if left < MIN_CHECKOUT_TOTAL_CENTS {
            Some(most)
        } else {
            Some(amount)
        }
    } else if text::same(discount_type, "fixed_amount") || text::same(
        discount_type,
        "fixed_cents",
    ) {
        let fixed: i64 = discount_value.truncated();
        if fixed < most {
            Some(fixed)
        } else {
            Some(most)
        }
    } else {
        Some(0)
    }
}

/// What a coupon takes off an order, in cents: for a percentage that part of
/// the subtotal, rounded down, and no more than the cap; for a fixed amount
/// that amount; nothing for any other coupon. The least total always remains.
pub fn compute_discount(
    discount_type: &str,
    discount_value: DiscountValue,
    cart_subtotal_cents: i64,
) -> (r: i64)
    requires
        discount_value.valid(),
        discount_fits(discount_type@, discount_value, cart_subtotal_cents as int),
    ensures
        r == discount(discount_type@, discount_value, cart_subtotal_cents as int),
{
    match checked_discount(discount_type, discount_value, cart_subtotal_cents) {
        Some(n) => n,
        None => 0,
    }
}

/// After any discount on an order of more than the least total, at least the
/// least total remains; a smaller order is not discounted at all.
pub proof fn law_minimum_total_remains(kind: Seq<char>, value: DiscountValue, subtotal: int)
    ensures
        subtotal > MIN_CHECKOUT_TOTAL_CENTS ==> subtotal - discount(kind, value, subtotal)
            >= MIN_CHECKOUT_TOTAL_CENTS,
        subtotal <= MIN_CHECKOUT_TOTAL_CENTS ==> discount(kind, value, subtotal) == 0,
{
}

/// A percentage coupon never takes off more than nine tenths.
pub proof fn law_percentage_is_capped(kind: Seq<char>, value: DiscountValue, subtotal: int)
    requires
        is_percentage(kind),
        subtotal >= 0,
    ensures
        10 * discount(kind, value, subtotal) <= 9 * subtotal,
{
    if subtotal > MIN_CHECKOUT_TOTAL_CENTS {
        let part = capped(value);
        assert(subtotal * part <= subtotal * 90_000) by (nonlinear_arith)
            requires
                subtotal >= 0,
                part <= 90_000,
        ;
    }
}

/// A discount of a value that is not negative is not negative, and no more
/// than the order.
pub proof fn law_discount_within_order(kind: Seq<char>, value: DiscountValue, subtotal: int)
    requires
        value.valid(),
        value.floor >= 0,
        subtotal >= 0,
    ensures
        0 <= discount(kind, value, subtotal) <= subtotal,
{
    if subtotal > MIN_CHECKOUT_TOTAL_CENTS {
        let part = capped(value);
        assert(0 <= subtotal * part <= subtotal * 90_000) by (nonlinear_arith)
            requires
                subtotal >= 0,
                0 <= part <= 90_000,
        ;
    }
}

/// The two names of a kind of discount mean the same.
pub proof fn law_discount_aliases(value: DiscountValue, subtotal: int)
    ensures
        discount("percent"@, value, subtotal) == discount("percentage"@, value, subtotal),
        discount("fixed_cents"@, value, subtotal) == discount("fixed_amount"@, value, subtotal),
{
    reveal_strlit("percent");
    reveal_strlit("percentage");
    reveal_strlit("fixed_cents");
    reveal_strlit("fixed_amount");
    assert("fixed_cents"@[0] == 'f' && "fixed_amount"@[0] == 'f');
    assert("percent"@[0] == 'p' && "percentage"@[0] == 'p');
}

/// On a larger order a discount is never smaller.
pub proof fn law_discount_grows_with_order(
    kind: Seq<char>,
    value: DiscountValue,
    smaller: int,
    larger: int,
)
    requires
        value.valid(),
        value.floor >= 0,
        0 <= smaller <= larger,
    ensures
        discount(kind, value, smaller) <= discount(kind, value, larger),
{
    law_discount_within_order(kind, value, larger);
    if smaller > MIN_CHECKOUT_TOTAL_CENTS {
        let part = capped(value);
        assert(0 <= smaller * part <= larger * part) by (nonlinear_arith)
            requires
                0 <= smaller <= larger,
                0 <= part,
        ;
    }
}

// -------------------------------------------------------------------- applying

/// Why a request to apply a coupon is refused on its own.
pub open spec fn apply_refusal(req: ApplyCouponRequest) -> Option<Fault> {
    if !is_code(stored_code(req.code@)) {
        Some(Fault::Validation("Coupon invalid or unavailable"@))
    } else if req.order_subtotal_cents < 0 {
        Some(Fault::Validation("cartSubtotalCents must be a non-negative integer"@))
    } else {
        None
    }
}

/// Checks a request to apply a coupon, and gives the code to look up.
pub fn check_apply_request(req: &ApplyCouponRequest) -> (r: Result<String, Error>)
    ensures
        match r {
            Ok(code) => apply_refusal(*req) is None && code@ == stored_code(req.code@),
            Err(e) => apply_refusal(*req) == Some(e@),
        },
{
    let code = normalize_code(req.code.as_str());
    if !is_valid_coupon_code(code.as_str()) {
        return Err(validation("Coupon invalid or unavailable"));
    }
    if req.order_subtotal_cents < 0 {
        return Err(validation("cartSubtotalCents must be a non-negative integer"));
    }
    Ok(code)
}

/// The coupon has lapsed at `now`.
pub open spec fn is_expired(coupon: Json, now: Timestamp) -> bool {
    stored_instant(coupon, fields::EXPIRES_AT@) matches Some(t) && now.is_after(t)
}

/// Whether a coupon has lapsed at `now`.
pub fn coupon_expired(coupon: &serde_json::Value, now: Timestamp) -> (r: bool)
    ensures
        r == is_expired(json_of(*coupon), now),
{
    match read_instant(coupon, fields::EXPIRES_AT) {
        Some(t) => now.after(t),
        None => false,
    }
}

/// How often a coupon was used.
pub open spec fn used_count(coupon: Json) -> i64 {
    json::int_at_or(coupon, fields::USED_COUNT@, 0)
}

/// The coupon was used as often as it may be.
pub open spec fn is_used_up(coupon: Json) -> bool {
    json::int_at(coupon, fields::MAX_USES@) matches Some(m) && used_count(coupon) >= m
}

/// Whether a coupon was used as often as it may be.
pub fn coupon_used_up(coupon: &serde_json::Value) -> (r: bool)
    ensures
        r == is_used_up(json_of(*coupon)),
{
    match json::int_field(coupon, fields::MAX_USES) {
        Some(m) => json::int_field_or(coupon, fields::USED_COUNT, 0) >= m,
        None => false,
    }
}

/// Why a coupon, `null` where there is none, cannot be applied by anyone.
pub open spec fn coupon_refusal(coupon: Json, now: Timestamp) -> Option<Fault> {
    if coupon is Null {
        Some(Fault::NotFound("Coupon invalid or unavailable"@))
    } else if !json::flag_at_or(coupon, "isActive"@, false) || is_expired(coupon, now)
        || is_used_up(coupon) {
        Some(Fault::Validation("Coupon invalid or unavailable"@))
    } else {
        None
    }
}

/// Checks that a coupon, `null` where there is none, can be applied at all.
pub fn check_coupon(coupon: &serde_json::Value, now: Timestamp) -> (r: Result<(), Error>)
    ensures
        match r {
            Ok(()) => coupon_refusal(json_of(*coupon), now) is None,
            Err(e) => coupon_refusal(json_of(*coupon), now) == Some(e@),
        },
{
    if json::is_null(coupon) {
        return Err(not_found("Coupon invalid or unavailable"));
    }
    if !json::flag_field_or(coupon, "isActive", false) {
        return Err(validation("Coupon invalid or unavailable"));
    }
    if coupon_expired(coupon, now) {
        return Err(validation("Coupon invalid or unavailable"));
    }
    if coupon_used_up(coupon) {
        return Err(validation("Coupon invalid or unavailable"));
    }
    Ok(())
}

/// The number of uses that a count query reports, 0 where it reports none.
pub open spec fn reported_uses(rows: Seq<Json>) -> i64 {
    if rows.len() == 0 {
        0
    } else {
        json::int_at_or(rows[0], "count"@, 0)
    }
}

/// The number of uses that a count query reports.
pub fn user_use_count(rows: &Vec<serde_json::Value>) -> (r: i64)
    ensures
        r == reported_uses(jsons(rows@)),
{
    if rows.len() == 0 {
        0
    } else {
        json::int_field_or(&rows[0], "count", 0)
    }
}

/// How often one user may use a coupon.
pub open spec fn uses_per_user(coupon: Json) -> i64 {
    json::int_at_or(coupon, "maxUsesPerUser"@, 1)
}

/// Checks that a user who used the coupon `uses` times may use it again.
pub fn check_user_uses(coupon: &serde_json::Value, uses: i64) -> (r: Result<(), Error>)
    ensures
        match r {
            Ok(()) => uses < uses_per_user(json_of(*coupon)),
            Err(e) => uses >= uses_per_user(json_of(*coupon)) && e@ == Fault::Validation(
                "You've reached the maximum uses for this coupon"@,
            ),
        },
{
    if uses >= json::int_field_or(coupon, "maxUsesPerUser", 1) {
        return Err(validation("You've reached the maximum uses for this coupon"));
    }
    Ok(())
}

/// The sellers of a request.
pub open spec fn sellers_of(req: ApplyCouponRequest) -> Seq<Seq<char>> {
    match req.seller_ids {
        Some(v) => crate::lists::texts(v@),
        None => Seq::empty(),
    }
}

/// Why a coupon does not fit an order.
pub open spec fn scope_refusal(req: ApplyCouponRequest, coupon: Json) -> Option<Fault> {
    if json::text_at(coupon, fields::SELLER_ID@) matches Some(s) && !sellers_of(req).contains(s) {
        Some(Fault::Validation("Coupon invalid or unavailable"@))
    } else if json::int_at(coupon, fields::MIN_ORDER_CENTS@) matches Some(m)
        && req.order_subtotal_cents < m {
        Some(
            Fault::Validation(
                "Cart subtotal does not meet the minimum order requirement for this coupon"@,
            ),
        )
    } else {
        None
    }
}

/// The kind of a coupon's discount, empty where it names none.
pub open spec fn kind_of(coupon: Json) -> Seq<char> {
    let x = match json::member(coupon, fields::COUPON_TYPE@) {
        Some(x) => Some(x),
        None => json::member(coupon, fields::DISCOUNT_TYPE@),
    };
    match x {
        Some(j) => match json::as_text(j) {
            Some(s) => s,
            None => Seq::empty(),
        },
        None => Seq::empty(),
    }
}

/// The kind of a coupon's discount.
pub fn coupon_kind(coupon: &serde_json::Value) -> (r: String)
    ensures
        r@ == kind_of(json_of(*coupon)),
{
    let x = match json::get(coupon, fields::COUPON_TYPE) {
        Some(x) => Some(x),
        None => json::get(coupon, fields::DISCOUNT_TYPE),
    };
    if let Some(j) = x {
        if let Some(s) = json::as_str(j) {
            return s.to_owned();
        }
    }
    String::new()
}

/// Checks that a coupon fits an order.
pub fn check_scope(req: &ApplyCouponRequest, coupon: &serde_json::Value) -> (r: Result<(), Error>)
    ensures
        match r {
            Ok(()) => scope_refusal(*req, json_of(*coupon)) is None,
            Err(e) => scope_refusal(*req, json_of(*coupon)) == Some(e@),
        },
{
    if let Some(seller) = json::text_field(coupon, fields::SELLER_ID) {
        let listed = match &req.seller_ids {
            Some(v) => crate::lists::holds(v, seller),
            None => false,
        };
        if !listed {
            return Err(validation("Coupon invalid or unavailable"));
        }
    }
    if let Some(min) = json::int_field(coupon, fields::MIN_ORDER_CENTS) {
        if req.order_subtotal_cents < min {
            return Err(
                validation(
                    "Cart subtotal does not meet the minimum order requirement for this coupon",
                ),
            );
        }
    }
    Ok(())
}

/// Applies a coupon to an order, where `value` is the value of its discount.
/// There is no answer where an amount does not fit in `i64`.
pub fn apply_coupon(
    req: &ApplyCouponRequest,
    code: String,
    coupon: &serde_json::Value,
    value: DiscountValue,
) -> (r: Result<Option<ApplyCouponResponse>, Error>)
    requires
        value.valid(),
    ensures
        match r {
            Ok(answer) => scope_refusal(*req, json_of(*coupon)) is None && {
                let kind = kind_of(json_of(*coupon));
                let subtotal = req.order_subtotal_cents as int;
                match answer {
                    Some(a) => {
                        &&& discount_fits(kind, value, subtotal)
                        &&& a.valid
                        &&& a.discount_amount_cents == discount(kind, value, subtotal)
                        &&& a.discount_type@ == kind
                        &&& a.discount_value == value
                        &&& a.coupon_code == code
                    },
                    None => !discount_fits(kind, value, subtotal),
                }
            },
            Err(e) => scope_refusal(*req, json_of(*coupon)) == Some(e@),
        },
{
    if let Err(e) = check_scope(req, coupon) {
        return Err(e);
    }
    let kind = coupon_kind(coupon);
    match checked_discount(kind.as_str(), value, req.order_subtotal_cents) {
        Some(amount) => Ok(
            Some(
                ApplyCouponResponse {
                    valid: true,
                    discount_amount_cents: amount,
                    discount_type: kind,
                    discount_value: value,
                    coupon_code: code,
                },
            ),
        ),
        None => Ok(None),
    }
}

// -------------------------------------------------------------------- creating

/// The user document gives the administrator's role.
pub open spec fn is_admin(user: Json) -> bool {
    json::items_at(user, fields::ROLES@).contains(Json::Str("admin"@))
}

/// Checks that a user document gives the administrator's role.
pub fn check_admin(user: &serde_json::Value) -> (r: Result<(), Error>)
    ensures
        match r {
            Ok(()) => is_admin(json_of(*user)),
            Err(e) => !is_admin(json_of(*user)) && e@ == Fault::Forbidden(
                "Admin access required"@,
            ),
        },
{
    if let Some(roles) = json::list_field(user, fields::ROLES) {
        let ghost all = jsons(roles@);
        let mut i: usize = 0;
        while i < roles.len()
            invariant
                i <= roles@.len(),
                all == jsons(roles@),
                all == json::items_at(json_of(*user), fields::ROLES@),
                forall|j: int| 0 <= j < i ==> all[j] != Json::Str("admin"@),
            decreases roles@.len() - i,
        {
            if let Some(s) = json::as_str(&roles[i]) {
                if text::same(s, "admin") {
                    assert(all[i as int] == Json::Str("admin"@));
                    return Ok(());
                }
            }
            i = i + 1;
        }
    }
    Err(forbidden("Admin access required"))
}

/// The kind of discount is one that there is.
pub open spec fn is_known_kind(kind: Seq<char>) -> bool {
    is_percentage(kind) || is_fixed(kind) || kind == "free_shipping"@
}

/// The least order that a fixed coupon may ask for.
pub open spec fn min_order_for(value: DiscountValue) -> int {
    value.whole() + 5 * MIN_CHECKOUT_TOTAL_CENTS
}

/// The message on a fixed coupon that asks for too small an order.
pub open spec fn min_order_message(value: DiscountValue) -> Seq<char> {
    "Fixed coupon requires minOrderCents >= "@ + signed_decimal(min_order_for(value))
}

/// Why a coupon is not created as requested.
pub open spec fn create_refusal(req: CreateCouponRequest) -> Option<Fault> {
    let kind = req.discount_type@;
    let value = req.discount_value;
    if !is_code(stored_code(req.code@)) {
        Some(Fault::Validation("Code must be 4-20 uppercase alphanumeric characters"@))
    } else if !is_known_kind(kind) {
        Some(
            Fault::Validation(
                "discountType must be one of: percentage, percent, fixed_amount, fixed_cents, free_shipping"@,
            ),
        )
    } else if !value.is_positive() {
        Some(Fault::Validation("discountValue must be a positive number"@))
    } else if is_percentage(kind) && !(value.floor >= 1 && value.is_at_most(90)) {
        Some(Fault::Validation("Percent discount must be between 1 and 90"@))
    } else if !is_percentage(kind) && is_fixed(kind) && value.floor < 100 {
        Some(Fault::Validation("Fixed discount must be at least 100 cents ($1.00)"@))
    } else if is_fixed(kind) && (req.min_order_cents matches Some(m) && m < min_order_for(value)) {
        Some(Fault::Validation(min_order_message(value)))
    } else if req.min_order_cents matches Some(m) && m < 0 {
        Some(Fault::Validation("minOrderCents must be a non-negative integer"@))
    } else if req.max_uses_total matches Some(m) && m < 1 {
        Some(Fault::Validation("maxUsesTotal must be a positive integer"@))
    } else {
        None
    }
}

/// Checks a request to create a coupon, and gives the code to look up.
pub fn check_create_request(req: &CreateCouponRequest) -> (r: Result<String, Error>)
    requires
        req.discount_value.valid(),
    ensures
        match r {
            Ok(code) => create_refusal(*req) is None && code@ == stored_code(req.code@),
            Err(e) => create_refusal(*req) == Some(e@),
        },
{
    let code = normalize_code(req.code.as_str());
    let kind = req.discount_type.as_str();
    let value = req.discount_value;
    if !is_valid_coupon_code(code.as_str()) {
        return Err(validation("Code must be 4-20 uppercase alphanumeric characters"));
    }
    let percentage = text::same(kind, "percentage") || text::same(kind, "percent");
    let fixed = text::same(kind, "fixed_amount") || text::same(kind, "fixed_cents");
    if !percentage && !fixed && !text::same(kind, "free_shipping") {
        return Err(
            validation(
                "discountType must be one of: percentage, percent, fixed_amount, fixed_cents, free_shipping",
            ),
        );
    }
    if !value.positive() {
        return Err(validation("discountValue must be a positive number"));
    }
    if percentage {
        if !value.between(1, 90) {
            return Err(validation("Percent discount must be between 1 and 90"));
        }
    } else if fixed {
        if value.floor < 100 {
            return Err(validation("Fixed discount must be at least 100 cents ($1.00)"));
        }
    }
    if fixed {
        let required: i128 = value.truncated() as i128 + 5 * MIN_CHECKOUT_TOTAL_CENTS as i128;
        if let Some(min) = req.min_order_cents {
            if (min as i128) < required {
                let message = text::join2(
                    "Fixed coupon requires minOrderCents >= ",
                    text::decimal_text(required as u128).as_str(),
                );
                return Err(Error::Validation(message));
            }
        }
    }
    if let Some(min) = req.min_order_cents {
        if min < 0 {
            return Err(validation("minOrderCents must be a non-negative integer"));
        }
    }
    if let Some(max) = req.max_uses_total {
        if max < 1 {
            return Err(validation("maxUsesTotal must be a positive integer"));
        }
    }
    Ok(code)
}

/// A coupon as it is first stored.
pub struct NewCoupon {
    pub code: String,
    pub coupon_type: String,
    pub discount_value: DiscountValue,
    pub min_order_cents: Option<i64>,
    pub max_uses: Option<i64>,
    pub max_uses_per_user: i64,
    pub used_count: i64,
    pub expires_at: Option<String>,
    pub is_active: bool,
    pub seller_id: Option<String>,
    pub created_at: String,
    pub created_by_admin_id: String,
}

/// The text of an optional string.
pub open spec fn opt_text(s: Option<String>) -> Option<Seq<char>> {
    match s {
        Some(x) => Some(x@),
        None => None,
    }
}

/// The end of a coupon as it is stored: the instant asked for, where it can be
/// read.
pub open spec fn stored_expiry(asked: Option<String>) -> Option<Seq<char>> {
    match asked {
        Some(s) => time::rfc3339_rewritten(s@),
        None => None,
    }
}

/// `c` is the document of the coupon that `req` asks for, under a code and made
/// at `stamp`.
pub open spec fn is_coupon_for(
    c: NewCoupon,
    req: CreateCouponRequest,
    code: String,
    stamp: Seq<char>,
) -> bool {
    &&& c.code == code
    &&& c.coupon_type == req.discount_type
    &&& c.discount_value == req.discount_value
    &&& c.min_order_cents == req.min_order_cents
    &&& c.max_uses == req.max_uses_total
    &&& c.max_uses_per_user == match req.max_uses_per_user {
        Some(n) => n,
        None => 1,
    }
    &&& c.used_count == 0
    &&& opt_text(c.expires_at) == stored_expiry(req.expires_at)
    &&& c.expires_at matches Some(s) ==> req.expires_at matches Some(asked)
        && time::rfc3339_instant(s@) == time::rfc3339_instant(asked@)
    &&& c.is_active == req.is_active
    &&& c.seller_id == req.seller_id
    &&& c.created_at@ == stamp
    &&& c.created_by_admin_id == req.user_id
}

/// The document of a new coupon, where the lookup of its code found `existing`,
/// `null` for nothing.
pub fn new_coupon(
    req: CreateCouponRequest,
    code: String,
    existing: &serde_json::Value,
    now: Timestamp,
) -> (r: Result<NewCoupon, Error>)
    requires
        now.of_clock(),
        req.discount_value.valid(),
    ensures
        match r {
            Ok(c) => json_of(*existing) is Null && is_coupon_for(
                c,
                req,
                code,
                time::rfc3339_text(now),
            ),
            Err(e) => !(json_of(*existing) is Null) && e@ == Fault::Validation(
                joined(seq!["Coupon code '"@, code@, "' already exists"@]),
            ),
        },
{
    if !json::is_null(existing) {
        let parts = ["Coupon code '", code.as_str(), "' already exists"];
        let message = text::join(&parts);
        assert(views(parts@) =~= seq!["Coupon code '"@, code@, "' already exists"@]);
        return Err(Error::Validation(message));
    }
    let expires_at = match &req.expires_at {
        Some(s) => time::rewrite_rfc3339(s.as_str()),
        None => None,
    };
    let max_uses_per_user: i64 = match req.max_uses_per_user {
        Some(n) => n,
        None => 1,
    };
    Ok(
        NewCoupon {
            code,
            coupon_type: req.discount_type,
            discount_value: req.discount_value,
            min_order_cents: req.min_order_cents,
            max_uses: req.max_uses_total,
            max_uses_per_user,
            used_count: 0,
            expires_at,
            is_active: req.is_active,
            seller_id: req.seller_id,
            created_at: time::to_rfc3339(now),
            created_by_admin_id: req.user_id,
        },
    )
}

// ------------------------------------------------------------------- redeeming

/// Checks a request to redeem a coupon, and gives the code to look up.
pub fn check_redeem_request(req: &RedeemCouponRequest) -> (r: Result<String, Error>)
    ensures
        match r {
            Ok(code) => code@ == stored_code(req.code@) && code@.len() > 0,
            Err(e) => stored_code(req.code@).len() == 0 && e@ == Fault::Validation(
                "code is required"@,
            ),
        },
{
    let code = normalize_code(req.code.as_str());
    if code.as_str().is_empty() {
        return Err(validation("code is required"));
    }
    Ok(code)
}

/// What redeeming a coupon comes to.
#[derive(Debug, Clone, Copy, PartialEq, Eq)]
pub enum Redemption {
    /// There is no such coupon any more, or it has lapsed: nothing is counted.
    Skip,
    /// One more use is counted: the new number of uses.
    Count(i64),
}

/// What redeeming a coupon, `null` where there is none, comes to.
pub open spec fn redemption(coupon: Json, now: Timestamp) -> Result<Redemption, Fault> {
    if coupon is Null || is_expired(coupon, now) {
        Ok(Redemption::Skip)
    } else if is_used_up(coupon) {
        Err(Fault::Validation("Coupon fully redeemed"@))
    } else {
        Ok(Redemption::Count((used_count(coupon) + 1) as i64))
    }
}

/// One more use of the coupon would be counted, but does not fit in `i64`.
pub open spec fn uses_overflow(coupon: Json, now: Timestamp) -> bool {
    &&& !(coupon is Null)
    &&& !is_expired(coupon, now)
    &&& !is_used_up(coupon)
    &&& used_count(coupon) == i64::MAX
}

/// Whether one more use of the coupon would be counted, but does not fit.
pub fn coupon_uses_overflow(coupon: &serde_json::Value, now: Timestamp) -> (r: bool)
    ensures
        r == uses_overflow(json_of(*coupon), now),
{
    !json::is_null(coupon) && !coupon_expired(coupon, now) && !coupon_used_up(coupon)
        && json::int_field_or(coupon, fields::USED_COUNT, 0) == i64::MAX
}

/// Decides on redeeming a coupon, `null` where there is none.
pub fn decide_redemption(coupon: &serde_json::Value, now: Timestamp) -> (r: Result<
    Redemption,
    Error,
>)
    requires
        !uses_overflow(json_of(*coupon), now),
    ensures
        match r {
            Ok(d) => redemption(json_of(*coupon), now) == Ok::<Redemption, Fault>(d),
            Err(e) => redemption(json_of(*coupon), now) == Err::<Redemption, Fault>(e@),
        },
{
    if json::is_null(coupon) || coupon_expired(coupon, now) {
        return Ok(Redemption::Skip);
    }
    if coupon_used_up(coupon) {
        return Err(validation("Coupon fully redeemed"));
    }
    Ok(Redemption::Count(json::int_field_or(coupon, fields::USED_COUNT, 0) + 1))
}

/// The answer to a request to redeem a coupon.
pub fn redeem_answer(decision: Redemption) -> (r: RedeemCouponResponse)
    ensures
        r.success,
        r.redeemed == (decision is Count),
{
    let redeemed = match decision {
        Redemption::Skip => false,
        Redemption::Count(_) => true,
    };
    RedeemCouponResponse { success: true, redeemed }
}

/// A use of a coupon as it is stored.
pub struct CouponUse {
    pub coupon_id: String,
    pub user_id: String,
    pub order_id: String,
    pub redeemed_at: String,
}

/// The document of a use of a coupon.
pub fn coupon_use(req: RedeemCouponRequest, code: String, now: Timestamp) -> (r: CouponUse)
    requires
        now.of_clock(),
    ensures
        r.coupon_id == code,
        r.user_id == req.user_id,
        r.order_id == req.order_id,
        r.redeemed_at@ == time::rfc3339_text(now),
{
    CouponUse {
        coupon_id: code,
        user_id: req.user_id,
        order_id: req.order_id,
        redeemed_at: time::to_rfc3339(now),
    }
}

// ------------------------------------------------------------------------ laws

/// A coupon with a limit is never used more often than that, and one that was
/// used as often as it may be is neither applied nor redeemed again.
pub proof fn law_use_limit(coupon: Json, now: Timestamp, limit: i64)
    requires
        json::int_at(coupon, fields::MAX_USES@) == Some(limit),
    ensures
        redemption(coupon, now) matches Ok(Redemption::Count(n)) ==> n == used_count(coupon) + 1
            && n <= limit,
        used_count(coupon) >= limit ==> coupon_refusal(coupon, now) is Some && !(redemption(
            coupon,
            now,
        ) matches Ok(Redemption::Count(n))),
{
}

/// A coupon that has lapsed is neither applied nor counted.
pub proof fn law_expired_coupon_unusable(coupon: Json, now: Timestamp)
    requires
        is_expired(coupon, now),
    ensures
        coupon_refusal(coupon, now) is Some,
        redemption(coupon, now) == Ok::<Redemption, Fault>(Redemption::Skip),
{
}

/// A percentage coupon that was accepted takes off its own rate: it is never
/// cut by the cap.
pub proof fn law_accepted_percentage_applies(req: CreateCouponRequest, subtotal: int)
    requires
        req.discount_value.valid(),
        create_refusal(req) is None,
        is_percentage(req.discount_type@),
    ensures
        1_000 <= req.discount_value.thousandths <= MAX_COUPON_DISCOUNT_MILLIPERCENT,
        percentage_of(req.discount_value, subtotal) == quotient(
            subtotal * req.discount_value.thousandths,
            100_000,
        ),
{
}

/// A fixed coupon that asks for an order which leaves room for it takes off
/// its whole value on every order that it is applied to, and leaves at least
/// five times the least total.
pub proof fn law_fixed_coupon_full_value(req: CreateCouponRequest, subtotal: int)
    requires
        create_refusal(req) is None,
        is_fixed(req.discount_type@),
        !is_percentage(req.discount_type@),
        req.min_order_cents matches Some(m) && m <= subtotal,
    ensures
        discount(req.discount_type@, req.discount_value, subtotal) == req.discount_value.whole(),
        subtotal - discount(req.discount_type@, req.discount_value, subtotal) >= 5
            * MIN_CHECKOUT_TOTAL_CENTS,
{
}

/// A percentage coupon takes off its rate of the subtotal, rounded down to the
/// cent, wherever the least total remains after that, and all but the least
/// total otherwise. Rates are in thousandths of a per cent; those over 90 % are
/// cut to it.
pub proof fn law_percentage_discount(kind: Seq<char>, value: DiscountValue, subtotal: int)
    requires
        kind == "percentage"@ || kind == "percent"@,
        value.thousandths >= 0,
        subtotal > 100,
    ensures
        ({
            let rate = if value.thousandths > 90_000 {
                90_000
            } else {
                value.thousandths as int
            };
            let part = subtotal * rate / 100_000;
            &&& subtotal - part >= 100 ==> discount(kind, value, subtotal) == part
            &&& subtotal - part < 100 ==> discount(kind, value, subtotal) == subtotal - 100
        }),
{
    let rate = capped(value);
    assert(subtotal * rate >= 0) by (nonlinear_arith)
        requires
            subtotal > 0,
            rate >= 0,
    ;
}

/// A fixed coupon takes off its whole value wherever the least total remains
/// after that, and all but the least total otherwise.
pub proof fn law_fixed_discount(kind: Seq<char>, value: DiscountValue, subtotal: int)
    requires
        kind == "fixed_amount"@ || kind == "fixed_cents"@,
        value.floor >= 0,
        subtotal > 100,
    ensures
        subtotal - value.floor >= 100 ==> discount(kind, value, subtotal) == value.floor,
        subtotal - value.floor < 100 ==> discount(kind, value, subtotal) == subtotal - 100,
{
    reveal_strlit("percent");
    reveal_strlit("percentage");
    reveal_strlit("fixed_cents");
    reveal_strlit("fixed_amount");
    assert("fixed_cents"@[0] == 'f' && "fixed_amount"@[0] == 'f');
    assert("percent"@[0] == 'p' && "percentage"@[0] == 'p');
}

/// Any other coupon takes nothing off the subtotal, and no coupon does on an
/// order of no more than the least total.
pub proof fn law_other_coupons_take_nothing(kind: Seq<char>, value: DiscountValue, subtotal: int)
    requires
        subtotal <= 100 || (kind != "percentage"@ && kind != "percent"@ && kind != "fixed_amount"@
            && kind != "fixed_cents"@),
    ensures
        discount(kind, value, subtotal) == 0,
{
}

/// The value of a discount without its fraction, and whether it is positive,
/// follow from its thousandths.
pub proof fn law_value_reads_as_its_thousandths(value: DiscountValue)
    requires
        value.valid(),
        -8_796_093_022_208 <= value.floor < 8_796_093_022_208,
    ensures
        value.thousandths >= 1000 ==> value.is_positive(),
        value.floor >= 0 ==> value.whole() == value.floor && value.thousandths - 1000
            <= 1000 * value.whole() <= value.thousandths,
        value.floor < 0 && value.fractional ==> value.whole() == value.floor + 1,
        !value.fractional ==> value.whole() * 1000 == value.thousandths,
        value.is_positive() ==> value.thousandths >= 0,
{
}

/// A coupon can be applied exactly where it exists, says that it is active,
/// has not passed its end, and, where it has a limit, was used less often.
pub proof fn law_usable_coupon(coupon: Json, now: Timestamp)
    ensures
        coupon_refusal(coupon, now) is None <==> {
            &&& !(coupon is Null)
            &&& json::flag_at(coupon, "isActive"@) == Some(true)
            &&& stored_instant(coupon, "expiresAt"@) matches Some(end) ==> !now.is_after(end)
            &&& json::int_at(coupon, "maxUses"@) matches Some(limit) ==> json::int_at_or(
                coupon,
                "usedCount"@,
                0,
            ) < limit
        },
        coupon_refusal(coupon, now) is Some ==> coupon_refusal(coupon, now) == if coupon is Null {
            Some(Fault::NotFound("Coupon invalid or unavailable"@))
        } else {
            Some(Fault::Validation("Coupon invalid or unavailable"@))
        },
{
}

/// A coupon fits an order exactly where the order holds items of its seller,
/// if it has one, and comes to its least order, if it has one. A user may use
/// it as often as it says, once where it does not say.
pub proof fn law_coupon_fits_order(req: ApplyCouponRequest, coupon: Json)
    ensures
        scope_refusal(req, coupon) is None <==> {
            &&& json::text_at(coupon, "sellerId"@) matches Some(s) ==> (req.seller_ids matches Some(
                v,
            ) && exists|i: int| 0 <= i < v@.len() && (#[trigger] v@[i])@ == s)
            &&& json::int_at(coupon, "minOrderCents"@) matches Some(m) ==> req.order_subtotal_cents
                >= m
        },
        json::int_at(coupon, "maxUsesPerUser"@) is None ==> uses_per_user(coupon) == 1,
        json::int_at(coupon, "maxUsesPerUser"@) matches Some(n) ==> uses_per_user(coupon) == n,
{
    if let Some(s) = json::text_at(coupon, "sellerId"@) {
        if let Some(v) = req.seller_ids {
            let listed = crate::lists::texts(v@);
            if listed.contains(s) {
                let i = choose|i: int| 0 <= i < listed.len() && listed[i] == s;
                assert(v@[i]@ == s);
            }
            if exists|i: int| 0 <= i < v@.len() && (#[trigger] v@[i])@ == s {
                let i = choose|i: int| 0 <= i < v@.len() && (#[trigger] v@[i])@ == s;
                assert(listed[i] == s);
            }
        }
    }
}

/// A code is 4 to 20 ASCII capital letters and digits; a request is taken
/// exactly where its code, trimmed and in capital letters, is one, and its
/// subtotal is not negative.
pub proof fn law_apply_request_taken(req: ApplyCouponRequest)
    ensures
        ({
            let code = text::uppercase(text::trimmed(req.code@));
            apply_refusal(req) is None <==> {
                &&& 4 <= code.len() <= 20
                &&& forall|i: int|
                    0 <= i < code.len() ==> ('A' <= #[trigger] code[i] <= 'Z' || '0' <= code[i]
                        <= '9')
                &&& req.order_subtotal_cents >= 0
            }
        }),
{
    let code = text::uppercase(text::trimmed(req.code@));
    assert(is_code(code) <==> 4 <= code.len() <= 20 && forall|i: int|
        0 <= i < code.len() ==> ('A' <= #[trigger] code[i] <= 'Z' || '0' <= code[i] <= '9')) by {
        assert(forall|i: int|
            0 <= i < code.len() ==> is_code_char(#[trigger] code[i]) == ('A' <= code[i] <= 'Z'
                || '0' <= code[i] <= '9'));
    }
}

/// A percentage coupon is created exactly where its code is one, its rate lies
/// from 1 % to 90 %, its least order is not negative, and it may be used at
/// all.
pub proof fn law_percentage_coupon_created(req: CreateCouponRequest)
    requires
        req.discount_value.valid(),
        req.discount_type@ == "percentage"@ || req.discount_type@ == "percent"@,
    ensures
        create_refusal(req) is None <==> {
            let v = req.discount_value;
            &&& is_code(text::uppercase(text::trimmed(req.code@)))
            &&& v.floor >= 1 && (v.floor < 90 || (v.floor == 90 && !v.fractional))
            &&& req.min_order_cents matches Some(m) ==> m >= 0
            &&& req.max_uses_total matches Some(m) ==> m >= 1
        },
{
    reveal_strlit("percent");
    reveal_strlit("percentage");
    reveal_strlit("fixed_cents");
    reveal_strlit("fixed_amount");
    assert("fixed_cents"@[0] == 'f' && "fixed_amount"@[0] == 'f');
    assert("percent"@[0] == 'p' && "percentage"@[0] == 'p');
}

/// A fixed coupon is created exactly where its code is one, it is worth at
/// least 100 cents, its least order, if it has one, exceeds its value by 500
/// cents, and it may be used at all.
pub proof fn law_fixed_coupon_created(req: CreateCouponRequest)
    requires
        req.discount_value.valid(),
        req.discount_type@ == "fixed_amount"@ || req.discount_type@ == "fixed_cents"@,
    ensures
        create_refusal(req) is None <==> {
            let v = req.discount_value;
            &&& is_code(text::uppercase(text::trimmed(req.code@)))
            &&& v.floor >= 100
            &&& req.min_order_cents matches Some(m) ==> m >= v.floor + 500
            &&& req.max_uses_total matches Some(m) ==> m >= 1
        },
{
    reveal_strlit("percent");
    reveal_strlit("percentage");
    reveal_strlit("fixed_cents");
    reveal_strlit("fixed_amount");
    assert("fixed_cents"@[0] == 'f' && "fixed_amount"@[0] == 'f');
    assert("percent"@[0] == 'p' && "percentage"@[0] == 'p');
}

/// A coupon for free shipping is created exactly where its code is one, its
/// value is positive, its least order is not negative and it may be used at
/// all; one of an unknown type never is.
pub proof fn law_other_coupon_created(req: CreateCouponRequest)
    requires
        req.discount_type@ != "percentage"@,
        req.discount_type@ != "percent"@,
        req.discount_type@ != "fixed_amount"@,
        req.discount_type@ != "fixed_cents"@,
    ensures
        create_refusal(req) is None <==> {
            let v = req.discount_value;
            &&& req.discount_type@ == "free_shipping"@
            &&& is_code(text::uppercase(text::trimmed(req.code@)))
            &&& v.floor > 0 || (v.floor == 0 && v.fractional)
            &&& req.min_order_cents matches Some(m) ==> m >= 0
            &&& req.max_uses_total matches Some(m) ==> m >= 1
        },
{
}

/// Redeeming counts one more use exactly where the coupon exists, has not
/// passed its end, and, where it has a limit, was used less often.
pub proof fn law_redeeming_counts_one_use(coupon: Json, now: Timestamp)
    requires
        json::int_at_or(coupon, "usedCount"@, 0) < i64::MAX,
    ensures
        ({
            let used = json::int_at_or(coupon, "usedCount"@, 0);
            let lapsed = stored_instant(coupon, "expiresAt"@) matches Some(end) && now.is_after(
                end,
            );
            let spent = json::int_at(coupon, "maxUses"@) matches Some(limit) && used >= limit;
            &&& coupon is Null || lapsed <==> redemption(coupon, now) == Ok::<Redemption, Fault>(
                Redemption::Skip,
            )
            &&& !(coupon is Null) && !lapsed && spent <==> redemption(coupon, now) is Err
            &&& !(coupon is Null) && !lapsed && !spent ==> redemption(coupon, now) == Ok::<
                Redemption,
                Fault,
            >(Redemption::Count((used + 1) as i64))
        }),
{
}

/// Whoever creates coupons has the role `admin` in their document.
pub proof fn law_admins_hold_the_role(user: Json)
    ensures
        is_admin(user) <==> exists|i: int|
            0 <= i < json::items_at(user, "roles"@).len() && json::as_text(
                #[trigger] json::items_at(user, "roles"@)[i],
            ) == Some("admin"@),
{
    let roles = json::items_at(user, "roles"@);
    if is_admin(user) {
        let i = choose|i: int| 0 <= i < roles.len() && roles[i] == Json::Str("admin"@);
        assert(json::as_text(roles[i]) == Some("admin"@));
    }
    if exists|i: int| 0 <= i < roles.len() && json::as_text(#[trigger] roles[i]) == Some("admin"@) {
        let i = choose|i: int|
            0 <= i < roles.len() && json::as_text(#[trigger] roles[i]) == Some("admin"@);
        assert(roles[i] == Json::Str("admin"@));
    }
}

/// The type of a coupon's discount is the text at `couponType`, and the one at
/// `discountType` where there is no such member.
pub proof fn law_coupon_type(coupon: Json)
    ensures
        json::text_at(coupon, fields::COUPON_TYPE@) matches Some(s) ==> kind_of(coupon) == s,
        json::member(coupon, fields::COUPON_TYPE@) is None ==> kind_of(coupon)
            == json::text_or_empty(coupon, "discountType"@),
{
}

/// `doc` holds the coupon `c`.
pub open spec fn holds_coupon(doc: Json, c: NewCoupon) -> bool {
    &&& doc is Object
    &&& json::text_at(doc, "couponType"@) == Some(c.coupon_type@)
    &&& json::flag_at(doc, "isActive"@) == Some(c.is_active)
    &&& json::int_at(doc, "usedCount"@) == Some(c.used_count)
    &&& json::int_at(doc, "maxUses"@) == c.max_uses
    &&& json::int_at(doc, "maxUsesPerUser"@) == Some(c.max_uses_per_user)
    &&& json::int_at(doc, "minOrderCents"@) == c.min_order_cents
    &&& json::text_at(doc, "expiresAt"@) == opt_text(c.expires_at)
    &&& json::text_at(doc, "sellerId"@) == opt_text(c.seller_id)
}

/// A coupon that was created active can be applied at once and up to the end
/// that was asked for, of the type, to the sellers and from the order that
/// were asked for, as often by one user as was asked for, once where nothing
/// was.
pub proof fn law_created_coupon_applies(
    req: CreateCouponRequest,
    c: NewCoupon,
    code: String,
    stamp: Seq<char>,
    doc: Json,
    now: Timestamp,
)
    requires
        create_refusal(req) is None,
        is_coupon_for(c, req, code, stamp),
        holds_coupon(doc, c),
    ensures
        coupon_refusal(doc, now) is None <==> req.is_active && !(req.expires_at matches Some(s) && (
        time::rfc3339_instant(s@) matches Some(end) && now.is_after(end))),
        kind_of(doc) == req.discount_type@,
        uses_per_user(doc) == match req.max_uses_per_user {
            Some(n) => n,
            None => 1,
        },
        json::int_at(doc, "minOrderCents"@) == req.min_order_cents,
        json::text_at(doc, "sellerId"@) == opt_text(req.seller_id),
        json::int_at(doc, "maxUses"@) == req.max_uses_total,
        c.code == code,
        c.discount_value == req.discount_value,
        c.created_by_admin_id == req.user_id,
{
}

/// A discount comes out wherever the amounts fit in `i64`: for a rate that is
/// not negative, whenever the subtotal times the rate does; for any other
/// coupon always.
pub proof fn law_discounts_come_out(kind: Seq<char>, value: DiscountValue, subtotal: int)
    requires
        value.thousandths >= 0,
        subtotal <= 0x7fff_ffff_ffff_ffff,
    ensures
        subtotal * 90_000 <= 0x7fff_ffff_ffff_ffff ==> discount_fits(kind, value, subtotal),
        kind != "percentage"@ && kind != "percent"@ ==> discount_fits(kind, value, subtotal),
        subtotal <= 100 ==> discount_fits(kind, value, subtotal),
{
    let rate = capped(value);
    if subtotal > 100 {
        assert(0 <= subtotal * rate <= subtotal * 90_000) by (nonlinear_arith)
            requires
                subtotal > 0,
                0 <= rate <= 90_000,
        ;
    }
}

} // verus!
