//! The fixed words of the emails, in English and in French.
use vstd::prelude::*;

use crate::text;

verus! {

/// The English or the French wording.
pub open spec fn wording(lang: Seq<char>, en: Seq<char>, fr: Seq<char>) -> Seq<char> {
    if lang == "fr"@ {
        fr
    } else {
        en
    }
}

/// The wording of a label, empty for a key that is none.
pub open spec fn label(key: Seq<char>, lang: Seq<char>) -> Seq<char> {
    if key == "col.product"@ {
        wording(lang, "Product"@, "Produit"@)
    } else if key == "col.qty"@ {
        wording(lang, "Qty"@, "Qté"@)
    } else if key == "col.price"@ {
        wording(lang, "Price"@, "Prix"@)
    } else if key == "price.subtotal"@ {
        wording(lang, "Subtotal"@, "Sous-total"@)
    } else if key == "price.shipping"@ {
        wording(lang, "Shipping"@, "Livraison"@)
    } else if key == "price.taxes"@ {
        wording(lang, "Taxes"@, "Taxes"@)
    } else if key == "price.total"@ {
        wording(lang, "Total"@, "Total"@)
    } else if key == "price.free"@ {
        wording(lang, "Free"@, "Gratuit"@)
    } else if key == "label.order_id"@ {
        wording(lang, "Order ID:"@, "N° de commande :"@)
    } else if key == "confirm.hero_h"@ {
        wording(lang, "Order Confirmed!"@, "Commande confirmée !"@)
    } else if key == "confirm.hero_s"@ {
        wording(lang, "Thank you for shopping with us, your order is being prepared."@, "Merci pour votre achat. Votre commande est en cours de préparation."@)
    } else if key == "seller.hero_h"@ {
        wording(lang, "New Order Received!"@, "Nouvelle commande reçue !"@)
    } else if key == "seller.hero_s"@ {
        wording(lang, "You have a new order to fulfill. Ship it fast!"@, "Vous avez une nouvelle commande à traiter. Expédiez-la rapidement !"@)
    } else if key == "seller.action_banner"@ {
        wording(lang, "ACTION REQUIRED — Confirm and ship this order within 48 hours"@, "ACTION REQUISE — Confirmez et expédiez cette commande dans les 48 heures"@)
    } else if key == "cta.track_order"@ {
        wording(lang, "Track Your Order"@, "Suivre ma commande"@)
    } else if key == "cta.manage_orders"@ {
        wording(lang, "Manage Orders"@, "Gérer les commandes"@)
    } else if key == "footer.unsubscribe"@ {
        wording(lang, "Unsubscribe from marketing emails"@, "Se désabonner des courriels promotionnels"@)
    } else if key == "footer.privacy"@ {
        wording(lang, "Privacy Policy"@, "Politique de confidentialité"@)
    } else if key == "cart.hero_h"@ {
        wording(lang, "Your cart is waiting"@, "Votre panier vous attend"@)
    } else if key == "cart.hero_s"@ {
        wording(lang, "You have items in your cart that are still available:"@, "Vous avez des articles dans votre panier qui sont encore disponibles :"@)
    } else if key == "cart.cta"@ {
        wording(lang, "Complete your purchase"@, "Compléter mon achat"@)
    } else {
        Seq::empty()
    }
}

pub(crate) fn pick(lang: &str, en: &'static str, fr: &'static str) -> (r: &'static str)
    ensures
        r@ == wording(lang@, en@, fr@),
{
    if text::same(lang, "fr") {
        fr
    } else {
        en
    }
}

/// The wording of a label, empty for a key that is none.
pub fn t(key: &str, lang: &str) -> (r: &'static str)
    ensures
        r@ == label(key@, lang@),
{
    if text::same(key, "col.product") {
        pick(lang, "Product", "Produit")
    } else if text::same(key, "col.qty") {
        pick(lang, "Qty", "Qté")
    } else if text::same(key, "col.price") {
        pick(lang, "Price", "Prix")
    } else if text::same(key, "price.subtotal") {
        pick(lang, "Subtotal", "Sous-total")
    } else if text::same(key, "price.shipping") {
        pick(lang, "Shipping", "Livraison")
    } else if text::same(key, "price.taxes") {
        pick(lang, "Taxes", "Taxes")
    } else if text::same(key, "price.total") {
        pick(lang, "Total", "Total")
    } else if text::same(key, "price.free") {
        pick(lang, "Free", "Gratuit")
    } else if text::same(key, "label.order_id") {
        pick(lang, "Order ID:", "N° de commande :")
    } else if text::same(key, "confirm.hero_h") {
        pick(lang, "Order Confirmed!", "Commande confirmée !")
    } else if text::same(key, "confirm.hero_s") {
        pick(lang, "Thank you for shopping with us, your order is being prepared.", "Merci pour votre achat. Votre commande est en cours de préparation.")
    } else if text::same(key, "seller.hero_h") {
        pick(lang, "New Order Received!", "Nouvelle commande reçue !")
    } else if text::same(key, "seller.hero_s") {
        pick(lang, "You have a new order to fulfill. Ship it fast!", "Vous avez une nouvelle commande à traiter. Expédiez-la rapidement !")
    } else if text::same(key, "seller.action_banner") {
        pick(lang, "ACTION REQUIRED — Confirm and ship this order within 48 hours", "ACTION REQUISE — Confirmez et expédiez cette commande dans les 48 heures")
    } else if text::same(key, "cta.track_order") {
        pick(lang, "Track Your Order", "Suivre ma commande")
    } else if text::same(key, "cta.manage_orders") {
        pick(lang, "Manage Orders", "Gérer les commandes")
    } else if text::same(key, "footer.unsubscribe") {
        pick(lang, "Unsubscribe from marketing emails", "Se désabonner des courriels promotionnels")
    } else if text::same(key, "footer.privacy") {
        pick(lang, "Privacy Policy", "Politique de confidentialité")
    } else if text::same(key, "cart.hero_h") {
        pick(lang, "Your cart is waiting", "Votre panier vous attend")
    } else if text::same(key, "cart.hero_s") {
        pick(lang, "You have items in your cart that are still available:", "Vous avez des articles dans votre panier qui sont encore disponibles :")
    } else if text::same(key, "cart.cta") {
        pick(lang, "Complete your purchase", "Compléter mon achat")
    } else {
        proof {
            reveal_strlit("");
        }
        assert(""@ =~= Seq::<char>::empty());
        ""
    }
}

} // verus!
