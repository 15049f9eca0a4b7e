//! Configuration.

use vstd::prelude::*;
use vstd::string::*;

use crate::text::or_default;
use crate::text::or_text;
use crate::text::parse_signed;
use crate::text::parse_unsigned;
use crate::text::signed_value;
use crate::text::split_parts;
use crate::text::split_trimmed;
use crate::text::trimmed;
use crate::text::unsigned_value;

verus! {

pub struct Config {
    pub host: String,
    pub port: u16,
    pub database_url: String,
    pub blink_api_key: String,
    pub blink_wallet_id: String,
    pub blink_api_url: String,
    pub nostr_relays: Vec<String>,
    pub vapid_subject: String,
    pub vapid_public_key: String,
    pub vapid_private_key: String,
    pub frontend_origin: String,
    pub rate_limit_rpm: u32,
    pub min_fare_sats: i64,
    pub min_price_per_km_sats: i64,
    pub escrow_fee_bps: u64,
}

/// The variables of the environment that the configuration is made of, each as it
/// stands there, if it does.
pub struct EnvVars {
    pub host: Option<String>,
    pub port: Option<String>,
    pub database_url: Option<String>,
    pub blink_api_key: Option<String>,
    pub blink_wallet_id: Option<String>,
    pub blink_api_url: Option<String>,
    pub nostr_relays: Option<String>,
    pub vapid_subject: Option<String>,
    pub vapid_public_key: Option<String>,
    pub vapid_private_key: Option<String>,
    pub frontend_origin: Option<String>,
    pub rate_limit_rpm: Option<String>,
    pub min_fare_sats: Option<String>,
    pub min_price_per_km_sats: Option<String>,
    pub escrow_fee_bps: Option<String>,
}

/// The number in a variable up to `max`: `unset` where the variable is not there,
/// `unreadable` where it is no such number.
pub open spec fn number_in(var: Option<Seq<char>>, max: nat, unset: int, unreadable: int) -> int {
    match var {
        None => unset,
        Some(text) => match unsigned_value(text, max) {
            Some(n) => n as int,
            None => unreadable,
        },
    }
}

/// The signed number in a variable, or `default` where there is none.
pub open spec fn signed_in(var: Option<Seq<char>>, default: int) -> int {
    match var {
        None => default,
        Some(text) => match signed_value(text) {
            Some(n) => n,
            None => default,
        },
    }
}

fn read_number(var: &Option<String>, max: u64, unset: u64, unreadable: u64) -> (r: u64)
    ensures
        r == number_in(var.deep_view(), max as nat, unset as int, unreadable as int),
{
    match var {
        None => unset,
        Some(text) => match parse_unsigned(text.as_str(), max) {
            Some(n) => n,
            None => unreadable,
        },
    }
}

fn read_signed(var: &Option<String>, default: i64) -> (r: i64)
    ensures
        r == signed_in(var.deep_view(), default as int),
{
    match var {
        None => default,
        Some(text) => match parse_signed(text.as_str()) {
            Some(n) => n,
            None => default,
        },
    }
}

/// The port that the variable names, if it names one.
pub open spec fn port_in(var: Option<Seq<char>>) -> Option<nat> {
    match var {
        None => Some(8080),
        Some(text) => unsigned_value(text, 0xffff),
    }
}

impl Config {
    /// The configuration that the environment asks for. A port that is no 16-bit
    /// number is the one thing that makes it fail; the error is the text that
    /// stands for it.
    pub fn from_env(vars: &EnvVars) -> (r: Result<Config, String>)
        ensures
            match r {
                Err(text) => {
                    &&& port_in(vars.port.deep_view()) is None
                    &&& vars.port.deep_view() == Some(text@)
                },
                Ok(c) => {
                    &&& port_in(vars.port.deep_view()) == Some(c.port as nat)
                    &&& c.host@ == or_text(vars.host.deep_view(), "0.0.0.0"@)
                    &&& c.database_url@ == or_text(
                        vars.database_url.deep_view(),
                        "sqlite:./ulendo.db"@,
                    )
                    &&& c.blink_api_key@ == or_text(vars.blink_api_key.deep_view(), ""@)
                    &&& c.blink_wallet_id@ == or_text(vars.blink_wallet_id.deep_view(), ""@)
                    &&& c.blink_api_url@ == or_text(
                        vars.blink_api_url.deep_view(),
                        "https://api.blink.sv/graphql"@,
                    )
                    &&& c.nostr_relays.deep_view() == split_parts(
                        or_text(vars.nostr_relays.deep_view(), "wss://relay.damus.io"@),
                        ',',
                    ).map_values(|p: Seq<char>| trimmed(p))
                    &&& c.vapid_subject@ == or_text(vars.vapid_subject.deep_view(), ""@)
                    &&& c.vapid_public_key@ == or_text(vars.vapid_public_key.deep_view(), ""@)
                    &&& c.vapid_private_key@ == or_text(vars.vapid_private_key.deep_view(), ""@)
                    &&& c.frontend_origin@ == or_text(
                        vars.frontend_origin.deep_view(),
                        "http://localhost:5173"@,
                    )
                    &&& c.rate_limit_rpm == number_in(
                        vars.rate_limit_rpm.deep_view(),
                        0xffff_ffff,
                        60,
                        60,
                    )
                    &&& c.escrow_fee_bps == number_in(
                        vars.escrow_fee_bps.deep_view(),
                        0xffff_ffff_ffff_ffff,
                        150,
                        1000,
                    )
                    &&& c.min_fare_sats == signed_in(vars.min_fare_sats.deep_view(), 200)
                    &&& c.min_price_per_km_sats == signed_in(
                        vars.min_price_per_km_sats.deep_view(),
                        50,
                    )
                },
            },
    {
        let port: u16 = match &vars.port {
            None => 8080,
            Some(text) => match parse_unsigned(text.as_str(), 0xffff) {
                Some(n) => n as u16,
                None => {
                    return Err(text.clone());
                },
            },
        };
        let relays: String = or_default(&vars.nostr_relays, "wss://relay.damus.io");
        Ok(
            Config {
                host: or_default(&vars.host, "0.0.0.0"),
                port,
                database_url: or_default(&vars.database_url, "sqlite:./ulendo.db"),
                blink_api_key: or_default(&vars.blink_api_key, ""),
                blink_wallet_id: or_default(&vars.blink_wallet_id, ""),
                blink_api_url: or_default(&vars.blink_api_url, "https://api.blink.sv/graphql"),
                nostr_relays: split_trimmed(relays.as_str(), ','),
                vapid_subject: or_default(&vars.vapid_subject, ""),
                vapid_public_key: or_default(&vars.vapid_public_key, ""),
                vapid_private_key: or_default(&vars.vapid_private_key, ""),
                frontend_origin: or_default(&vars.frontend_origin, "http://localhost:5173"),
                rate_limit_rpm: read_number(&vars.rate_limit_rpm, 0xffff_ffff, 60, 60) as u32,
                min_fare_sats: read_signed(&vars.min_fare_sats, 200),
                min_price_per_km_sats: read_signed(&vars.min_price_per_km_sats, 50),
                escrow_fee_bps: read_number(
                    &vars.escrow_fee_bps,
                    0xffff_ffff_ffff_ffff,
                    150,
                    1000,
                ),
            },
        )
    }
}

} // verus!
