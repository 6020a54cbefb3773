//! Choosing the normalizer by the provider that a payload names.
use vstd::prelude::*;
use crate::event::{EventView, NormalizeError, TransactionEvent};
use crate::flutterwave::{flutterwave_view, normalize_flutterwave_payload};
use crate::json::{at, json_parse, parse_json, str_of, value_as_str, value_index, JsonTree};
use crate::mno::{
    airtel_money_view, mtn_momo_view, normalize_airtel_money_payload, normalize_mtn_momo_payload,
    normalize_orange_money_payload, orange_money_view,
};
use crate::paystack::{normalize_paystack_payload, paystack_view};
use vstd::utf8::is_ascii_chars;
use crate::text::{
    ascii_lowercase, ascii_lowercasing_is_idempotent, lowercase_text_is_unchanged, lowercased,
    owned_or, str_eq, text_or, to_lowercase,
};

verus! {

/// The payment providers whose webhooks are handled.
#[derive(Debug, Clone, Copy, PartialEq, Eq)]
pub enum Provider {
    Flutterwave,
    Paystack,
    MtnMomo,
    AirtelMoney,
    OrangeMoney,
}

/// The provider with the (already lower-cased) name `name`.
pub open spec fn provider_named(name: Seq<char>) -> Option<Provider> {
    if name == "flutterwave"@ {
        Some(Provider::Flutterwave)
    } else if name == "paystack"@ {
        Some(Provider::Paystack)
    } else if name == "mtn-momo"@ {
        Some(Provider::MtnMomo)
    } else if name == "airtel-money"@ {
        Some(Provider::AirtelMoney)
    } else if name == "orange-money"@ {
        Some(Provider::OrangeMoney)
    } else {
        None
    }
}

/// The event that the provider `p` reads from a payload `m`.
pub open spec fn provider_view(p: Provider, m: JsonTree) -> EventView {
    match p {
        Provider::Flutterwave => flutterwave_view(m),
        Provider::Paystack => paystack_view(m),
        Provider::MtnMomo => mtn_momo_view(m),
        Provider::AirtelMoney => airtel_money_view(m),
        Provider::OrangeMoney => orange_money_view(m),
    }
}

/// The provider that a payload names in its member `provider`, lower-cased
/// (empty where there is no such text).
pub open spec fn named_provider(m: JsonTree) -> Seq<char> {
    lowercased(text_or(str_of(at(m, "provider"@)), ""@))
}

/// The provider with the (already lower-cased) name `name`.
pub fn provider_from_name(name: &str) -> (r: Option<Provider>)
    ensures
        r == provider_named(name@),
{
    if str_eq(name, "flutterwave") {
        Some(Provider::Flutterwave)
    } else if str_eq(name, "paystack") {
        Some(Provider::Paystack)
    } else if str_eq(name, "mtn-momo") {
        Some(Provider::MtnMomo)
    } else if str_eq(name, "airtel-money") {
        Some(Provider::AirtelMoney)
    } else if str_eq(name, "orange-money") {
        Some(Provider::OrangeMoney)
    } else {
        None
    }
}

/// Normalizes a raw body with the normalizer of the provider `p`.
pub fn normalize_provider_payload(p: Provider, raw: &str) -> (r: Result<TransactionEvent, NormalizeError>)
    ensures
        r is Ok <==> json_parse(raw@) is Ok,
        r matches Ok(e) ==> e@ == provider_view(p, json_parse(raw@)->Ok_0),
        r matches Err(err) ==> err matches NormalizeError::InvalidJson(m) && m@ == json_parse(raw@)->Err_0,
{
    match p {
        Provider::Flutterwave => normalize_flutterwave_payload(raw),
        Provider::Paystack => normalize_paystack_payload(raw),
        Provider::MtnMomo => normalize_mtn_momo_payload(raw),
        Provider::AirtelMoney => normalize_airtel_money_payload(raw),
        Provider::OrangeMoney => normalize_orange_money_payload(raw),
    }
}

/// Normalizes a raw webhook body with the normalizer of the provider that
/// the body names in its member `provider` (compared without regard to
/// case). A body that is not JSON gives `InvalidJson`; one that names no
/// handled provider gives `UnsupportedProvider`.
pub fn normalize_webhook_payload(raw: &str) -> (r: Result<TransactionEvent, NormalizeError>)
    ensures
        json_parse(raw@) matches Err(msg) ==> r matches Err(NormalizeError::InvalidJson(m)) && m@ == msg,
        json_parse(raw@) matches Ok(m) ==> match provider_named(named_provider(m)) {
            Some(p) => r matches Ok(e) && e@ == provider_view(p, m),
            None => r matches Err(NormalizeError::UnsupportedProvider),
        },
{
    let json = match parse_json(raw) {
        Ok(json) => json,
        Err(e) => return Err(NormalizeError::InvalidJson(e)),
    };
    let name = owned_or(value_as_str(value_index(&json, "provider")), "");
    let provider = to_lowercase(name.as_str());
    match provider_from_name(provider.as_str()) {
        Some(p) => normalize_provider_payload(p, raw),
        None => Err(NormalizeError::UnsupportedProvider),
    }
}

/// A payload is routed by its root member `provider`: a payload whose
/// `provider` is the text `flutterwave`, `paystack`, `mtn-momo`,
/// `airtel-money` or `orange-money` reaches that provider's normalizer, and
/// one without a textual `provider` reaches none.
pub proof fn payloads_are_routed_by_their_provider_member(m: JsonTree)
    ensures
        str_of(at(m, "provider"@)) == Some("flutterwave"@) ==> provider_named(named_provider(m))
            == Some(Provider::Flutterwave),
        str_of(at(m, "provider"@)) == Some("paystack"@) ==> provider_named(named_provider(m))
            == Some(Provider::Paystack),
        str_of(at(m, "provider"@)) == Some("mtn-momo"@) ==> provider_named(named_provider(m))
            == Some(Provider::MtnMomo),
        str_of(at(m, "provider"@)) == Some("airtel-money"@) ==> provider_named(named_provider(m))
            == Some(Provider::AirtelMoney),
        str_of(at(m, "provider"@)) == Some("orange-money"@) ==> provider_named(named_provider(m))
            == Some(Provider::OrangeMoney),
        str_of(at(m, "provider"@)) is None ==> provider_named(named_provider(m)) is None,
{
    reveal_strlit("");
    lowercase_text_is_unchanged(""@);
    provider_names_route_to_their_provider(""@);
    providers_are_reached_by_their_names(""@);
    reveal_strlit("flutterwave");
    reveal_strlit("paystack");
    reveal_strlit("mtn-momo");
    reveal_strlit("airtel-money");
    reveal_strlit("orange-money");
    assert(""@.len() == 0 && "flutterwave"@.len() == 11 && "paystack"@.len() == 8);
    assert("mtn-momo"@.len() == 8 && "airtel-money"@.len() == 12 && "orange-money"@.len() == 12);
}

/// Each provider is reached by its own name and by no other.
pub proof fn providers_are_reached_by_their_names(name: Seq<char>)
    ensures
        provider_named(name) == Some(Provider::Flutterwave) <==> name == "flutterwave"@,
        provider_named(name) == Some(Provider::Paystack) <==> name == "paystack"@,
        provider_named(name) == Some(Provider::MtnMomo) <==> name == "mtn-momo"@,
        provider_named(name) == Some(Provider::AirtelMoney) <==> name == "airtel-money"@,
        provider_named(name) == Some(Provider::OrangeMoney) <==> name == "orange-money"@,
{
    reveal_strlit("flutterwave");
    reveal_strlit("paystack");
    reveal_strlit("mtn-momo");
    reveal_strlit("airtel-money");
    reveal_strlit("orange-money");
    assert("flutterwave"@.len() == 11 && "paystack"@.len() == 8 && "mtn-momo"@.len() == 8);
    assert("airtel-money"@.len() == 12 && "orange-money"@.len() == 12);
    assert("paystack"@[0] != "mtn-momo"@[0]);
    assert("airtel-money"@[0] != "orange-money"@[0]);
}

/// A payload that names a provider by its lower-case name reaches that
/// provider's normalizer, and names that differ from it only in the case of
/// ASCII letters are routed the same way.
pub proof fn provider_names_route_to_their_provider(name: Seq<char>)
    requires
        is_ascii_chars(name),
    ensures
        provider_named(lowercased("flutterwave"@)) == Some(Provider::Flutterwave),
        provider_named(lowercased("paystack"@)) == Some(Provider::Paystack),
        provider_named(lowercased("mtn-momo"@)) == Some(Provider::MtnMomo),
        provider_named(lowercased("airtel-money"@)) == Some(Provider::AirtelMoney),
        provider_named(lowercased("orange-money"@)) == Some(Provider::OrangeMoney),
        provider_named(lowercased(ascii_lowercase(name))) == provider_named(lowercased(name)),
{
    reveal_strlit("flutterwave");
    reveal_strlit("paystack");
    reveal_strlit("mtn-momo");
    reveal_strlit("airtel-money");
    reveal_strlit("orange-money");
    assert("flutterwave"@.len() == 11 && "paystack"@.len() == 8 && "mtn-momo"@.len() == 8);
    assert("airtel-money"@.len() == 12 && "orange-money"@.len() == 12);
    assert("paystack"@[0] != "mtn-momo"@[0]);
    assert("airtel-money"@[0] != "orange-money"@[0]);
    lowercase_text_is_unchanged("flutterwave"@);
    lowercase_text_is_unchanged("paystack"@);
    lowercase_text_is_unchanged("mtn-momo"@);
    lowercase_text_is_unchanged("airtel-money"@);
    lowercase_text_is_unchanged("orange-money"@);
    ascii_lowercasing_is_idempotent(name);
}

/// Routing to a provider reads the payload exactly as that provider's own
/// normalizer does.
pub proof fn routing_reads_as_each_provider(m: JsonTree)
    ensures
        provider_view(Provider::Flutterwave, m) == flutterwave_view(m),
        provider_view(Provider::Paystack, m) == paystack_view(m),
        provider_view(Provider::MtnMomo, m) == mtn_momo_view(m),
        provider_view(Provider::AirtelMoney, m) == airtel_money_view(m),
        provider_view(Provider::OrangeMoney, m) == orange_money_view(m),
{
}

/// Whatever the provider, the event keeps the whole payload as its
/// metadata.
pub proof fn events_keep_their_payload(p: Provider, m: JsonTree)
    ensures
        provider_view(p, m).metadata == m,
{
}

} // verus!
