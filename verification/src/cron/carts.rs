//! Reminders of carts that were left behind.
use vstd::prelude::*;

use crate::email::labels::wording;
use crate::email::CartItem;
use crate::fields;
use crate::json;
use crate::json::{json_of, jsons, Json};
use crate::lists::first_n;
use crate::rules;
use crate::text;
use crate::time;
use crate::time::{read_instant, stored_instant, Timestamp};

verus! {

/// The most items that a reminder takes from a cart.
pub const MAX_CART_ITEMS: usize = 5;

/// The instant at `key` lies less than `hours` before `now`.
pub open spec fn within_hours(doc: Json, key: Seq<char>, now: Timestamp, hours: int) -> bool {
    stored_instant(doc, key) matches Some(t) && t.is_after(now.earlier_by(hours * 3600))
}

/// The buyer may be reminded: they can be and want to be written to, were not
/// reminded lately, and did not check out lately.
pub open spec fn may_be_reminded(user: Json, now: Timestamp) -> bool {
    &&& json::text_or_empty(user, fields::EMAIL@).len() > 0
    &&& json::flag_at_or(user, fields::EMAIL_CONSENT@, false)
    &&& !within_hours(
        user,
        fields::LAST_CART_ABANDON_EMAIL_AT@,
        now,
        rules::ABANDONED_CART_COOLDOWN_HOURS as int,
    )
    &&& !within_hours(
        user,
        fields::LAST_CHECKOUT_TIMESTAMP@,
        now,
        rules::ABANDONED_CART_HOURS as int,
    )
}

/// Whether the instant at `key` lies less than `hours` before `now`.
fn is_within_hours(doc: &serde_json::Value, key: &str, now: Timestamp, hours: i64) -> (r: bool)
    requires
        now.of_clock(),
        0 <= hours <= 1000,
    ensures
        r == within_hours(json_of(*doc), key@, now, hours as int),
{
    match read_instant(doc, key) {
        Some(t) => t.after(now.minus_seconds(hours * 3600)),
        None => false,
    }
}

/// Whether the buyer may be reminded of their cart.
pub fn may_remind(user: &serde_json::Value, now: Timestamp) -> (r: bool)
    requires
        now.of_clock(),
    ensures
        r == may_be_reminded(json_of(*user), now),
{
    if json::text_field_or_empty(user, fields::EMAIL).is_empty() || !json::flag_field_or(
        user,
        fields::EMAIL_CONSENT,
        false,
    ) {
        return false;
    }
    if is_within_hours(
        user,
        fields::LAST_CART_ABANDON_EMAIL_AT,
        now,
        rules::ABANDONED_CART_COOLDOWN_HOURS,
    ) {
        return false;
    }
    !is_within_hours(user, fields::LAST_CHECKOUT_TIMESTAMP, now, rules::ABANDONED_CART_HOURS)
}

/// The names of the items in a cart, those without one left out.
pub open spec fn cart_names(cart: Seq<Json>) -> Seq<Seq<char>>
    decreases cart.len(),
{
    if cart.len() == 0 {
        Seq::empty()
    } else {
        let before = cart_names(cart.drop_last());
        match json::text_at(cart.last(), fields::NAME@) {
            Some(n) => before.push(n),
            None => before,
        }
    }
}

/// The names of cart items.
pub open spec fn item_names(v: Seq<CartItem>) -> Seq<Seq<char>> {
    Seq::new(v.len(), |i: int| v[i].name@)
}

/// The first named items of a cart.
pub fn cart_items(cart: &Vec<serde_json::Value>) -> (r: Vec<CartItem>)
    ensures
        item_names(r@) == first_n(cart_names(jsons(cart@)), MAX_CART_ITEMS as int),
{
    let ghost all = jsons(cart@);
    let mut out: Vec<CartItem> = Vec::new();
    let mut i: usize = 0;
    assert(item_names(out@) =~= first_n(cart_names(all.take(0)), 5));
    while i < cart.len()
        invariant
            i <= cart@.len(),
            all == jsons(cart@),
            item_names(out@) == first_n(cart_names(all.take(i as int)), MAX_CART_ITEMS as int),
        decreases cart@.len() - i,
    {
        proof {
            assert(all.take(i + 1).drop_last() =~= all.take(i as int));
            assert(all.take(i + 1).last() == json_of(cart@[i as int]));
            assert(item_names(out@).len() == out@.len());
        }
        let ghost before = item_names(out@);
        let ghost names = cart_names(all.take(i as int));
        if let Some(n) = json::text_field(&cart[i], fields::NAME) {
            if out.len() < MAX_CART_ITEMS {
                out.push(CartItem { name: n.to_owned() });
                assert(item_names(out@) =~= before.push(n@));
                assert(names == before);
                assert(first_n(names.push(n@), 5) =~= names.push(n@));
            } else {
                assert(first_n(names.push(n@), 5) =~= first_n(names, 5));
            }
        }
        i = i + 1;
    }
    assert(all.take(i as int) =~= all);
    out
}

/// A reminder to a buyer.
pub struct CartReminder {
    pub user_id: String,
    pub email: String,
    pub subject: String,
    pub buyer_name: String,
    pub lang: String,
    pub items: Vec<CartItem>,
}

/// The language of a reminder.
pub open spec fn reminder_lang(user: Json) -> Seq<char> {
    json::text_at_or(user, fields::LANGUAGE@, "en"@)
}

/// `m` reminds a buyer of their cart.
pub open spec fn reminds(m: CartReminder, user: Json, cart: Seq<Json>) -> bool {
    &&& item_names(m.items@) == first_n(cart_names(cart), MAX_CART_ITEMS as int)
    &&& m.user_id@ == json::text_or_empty(user, fields::ID@)
    &&& m.email@ == json::text_or_empty(user, fields::EMAIL@)
    &&& m.subject@ == wording(
        reminder_lang(user),
        "You left something in your cart — Origna"@,
        "Votre panier vous attend — Origna"@,
    )
    &&& m.buyer_name@ == json::text_at_or(user, fields::NAME@, "there"@)
    &&& m.lang@ == reminder_lang(user)
}

/// The reminder of a cart to its buyer, where it holds an item with a name.
pub fn cart_reminder(user: &serde_json::Value, cart: &Vec<serde_json::Value>) -> (r: Option<
    CartReminder,
>)
    ensures
        match r {
            Some(m) => cart_names(jsons(cart@)).len() > 0 && reminds(
                m,
                json_of(*user),
                jsons(cart@),
            ),
            None => cart_names(jsons(cart@)).len() == 0,
        },
{
    let items = cart_items(cart);
    assert(item_names(items@).len() == items@.len());
    if items.len() == 0 {
        return None;
    }
    let lang = json::text_field_or(user, fields::LANGUAGE, "en");
    let subject = if text::same(lang, "fr") {
        "Votre panier vous attend — Origna".to_owned()
    } else {
        "You left something in your cart — Origna".to_owned()
    };
    Some(
        CartReminder {
            user_id: json::text_field_or_empty(user, fields::ID).to_owned(),
            email: json::text_field_or_empty(user, fields::EMAIL).to_owned(),
            subject,
            buyer_name: json::text_field_or(user, fields::NAME, "there").to_owned(),
            lang: lang.to_owned(),
            items,
        },
    )
}

/// Nobody is reminded without their consent.
pub proof fn law_consent_required(user: Json, now: Timestamp)
    requires
        json::flag_at(user, fields::EMAIL_CONSENT@) != Some(true),
    ensures
        !may_be_reminded(user, now),
{
}

/// A buyer who was reminded is left alone for the cooldown.
pub proof fn law_reminder_cooldown(user: Json, reminded: Timestamp, now: Timestamp)
    requires
        now.of_clock(),
        reminded.of_clock(),
        stored_instant(user, fields::LAST_CART_ABANDON_EMAIL_AT@) == Some(reminded),
        time::nanos_between(now, reminded) < 72 * 3600 * 1_000_000_000,
    ensures
        !may_be_reminded(user, now),
{
    assert(time::nanos_between(now, reminded) == (now.secs - reminded.secs) * 1_000_000_000 + (
    now.nanos - reminded.nanos));
}

/// A buyer is reminded exactly where they have an address, agreed to emails,
/// were not reminded within 72 hours and did not check out within 24.
pub proof fn law_reminded_exactly_where_due(user: Json, now: Timestamp)
    ensures
        may_be_reminded(user, now) <==> {
            &&& json::text_or_empty(user, "email"@).len() > 0
            &&& json::flag_at(user, "emailConsent"@) == Some(true)
            &&& stored_instant(user, "lastCartAbandonEmailAt"@) matches Some(t) ==> !t.is_after(
                now.earlier_by(72 * 3600int),
            )
            &&& stored_instant(user, "lastCheckoutTimestamp"@) matches Some(t) ==> !t.is_after(
                now.earlier_by(24 * 3600int),
            )
        },
{
}

/// Every item of a cart that has a name is listed by it, in order, and the
/// others are left out.
pub proof fn law_cart_items_by_name(cart: Seq<Json>, item: Json)
    ensures
        cart_names(cart.push(item)) == match json::text_at(item, "name"@) {
            Some(n) => cart_names(cart).push(n),
            None => cart_names(cart),
        },
        cart_names(Seq::empty()).len() == 0,
{
    assert(cart.push(item).drop_last() =~= cart);
}

/// A reminder takes the first five of a longer cart, and all of a shorter one.
pub proof fn law_reminder_takes_five(names: Seq<Seq<char>>)
    ensures
        names.len() <= 5 ==> first_n(names, MAX_CART_ITEMS as int) == names,
        names.len() > 5 ==> first_n(names, MAX_CART_ITEMS as int) == names.take(5),
{
}

/// A reminder goes to the buyer's own address, in their language or else in
/// English, by their name, and tells of no more than five items of their cart,
/// the first ones.
pub proof fn law_reminder_goes_to_the_buyer(m: CartReminder, user: Json, cart: Seq<Json>)
    requires
        reminds(m, user, cart),
    ensures
        m.email@ == json::text_or_empty(user, "email"@),
        m.user_id@ == json::text_or_empty(user, "id"@),
        json::text_at(user, "name"@) matches Some(n) ==> m.buyer_name@ == n,
        json::text_at(user, "name"@) is None ==> m.buyer_name@ == "there"@,
        json::text_at(user, "language"@) matches Some(l) ==> m.lang@ == l,
        json::text_at(user, "language"@) is None ==> m.lang@ == "en"@,
        m.lang@ == "fr"@ ==> m.subject@ == "Votre panier vous attend — Origna"@,
        m.lang@ != "fr"@ ==> m.subject@ == "You left something in your cart — Origna"@,
        m.items@.len() == if cart_names(cart).len() < 5 {
            cart_names(cart).len()
        } else {
            5
        },
        forall|i: int|
            0 <= i < m.items@.len() ==> (#[trigger] m.items@[i]).name@ == cart_names(cart)[i],
{
    assert(item_names(m.items@).len() == m.items@.len());
    assert forall|i: int| 0 <= i < m.items@.len() implies (#[trigger] m.items@[i]).name@
        == cart_names(cart)[i] by {
        assert(item_names(m.items@)[i] == m.items@[i].name@);
    }
}

} // verus!
