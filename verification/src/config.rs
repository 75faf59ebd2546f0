//! The node configuration, built from an environment snapshot: every setting
//! read, defaulted, parsed and checked in a fixed order; the first failing
//! setting decides the error.
use vstd::prelude::*;
use crate::env::{EnvVars, env_lookup};
use crate::parse::split_on;
use crate::rpc_url::{ParsedUrl, parsed_view, url_parse, parse_url, is_blank, blank, is_http_scheme, is_ws_scheme, http_scheme, ws_scheme};
use crate::settings::{ConfigError, Entries, address_value, address_from_text, u64_setting, read_u64, positive_u64_setting, read_positive_u64, u16_setting, read_u16, required_u16_setting, read_required_u16, u128_setting, read_u128, bool_setting, read_bool, ipv4_setting, read_ipv4, string_setting, read_string};
use crate::text::{decimal, append_decimal, push_char, chars_of};

verus! {

/// Maximum payload size that fits in a single blob with Kona encoding.
pub const BLOB_MAX_DATA_SIZE: u64 = 130044;

/// The error of a setting's outcome, if it has one.
pub open spec fn err_of<T>(r: Result<T, Seq<char>>) -> Option<Seq<char>> {
    match r {
        Ok(_) => None,
        Err(e) => Some(e),
    }
}

/// The value of a renamed variable: the new name's value, else the
/// deprecated name's.
pub open spec fn env_with_deprecation(env: Entries, new_key: Seq<char>, deprecated_key: Seq<char>) -> Option<Seq<char>> {
    match env_lookup(env, new_key) {
        Some(v) => Some(v),
        None => env_lookup(env, deprecated_key),
    }
}

/// Reads a renamed variable: its new name first, then its deprecated name.
pub fn get_env_with_deprecation(env: &EnvVars, new_key: &str, deprecated_key: &str) -> (r: Option<String>)
    ensures
        match r {
            Some(v) => env_with_deprecation(env.entries@, new_key@, deprecated_key@) == Some(v@),
            None => env_with_deprecation(env.entries@, new_key@, deprecated_key@) is None,
        },
{
    match env.get(new_key) {
        Some(v) => Some(v),
        None => env.get(deprecated_key),
    }
}

/// The warning logged about a renamed variable, if any.
pub open spec fn deprecation_warning_spec(env: Entries, new_key: Seq<char>, deprecated_key: Seq<char>) -> Option<Seq<char>> {
    match (env_lookup(env, new_key), env_lookup(env, deprecated_key)) {
        (Some(_), Some(_)) => Some("Both "@ + new_key + " and deprecated "@ + deprecated_key + " are set; using "@ + new_key),
        (None, Some(_)) => Some(deprecated_key + " is deprecated and will be removed in a future release; use "@ + new_key + " instead"@),
        _ => None,
    }
}

/// The warning to log when a renamed variable is set under its old name.
pub fn deprecation_warning(env: &EnvVars, new_key: &str, deprecated_key: &str) -> (r: Option<String>)
    ensures
        match r {
            Some(m) => deprecation_warning_spec(env.entries@, new_key@, deprecated_key@) == Some(m@),
            None => deprecation_warning_spec(env.entries@, new_key@, deprecated_key@) is None,
        },
{
    let new_val = env.get(new_key);
    let old_val = env.get(deprecated_key);
    match (new_val, old_val) {
        (Some(_), Some(_)) => {
            let mut m = String::from_str("Both ");
            m.append(new_key);
            m.append(" and deprecated ");
            m.append(deprecated_key);
            m.append(" are set; using ");
            m.append(new_key);
            Some(m)
        },
        (None, Some(_)) => {
            let mut m = String::from_str(deprecated_key);
            m.append(" is deprecated and will be removed in a future release; use ");
            m.append(new_key);
            m.append(" instead");
            Some(m)
        },
        _ => None,
    }
}

/// A renamed text setting with a default.
pub open spec fn deprecated_string_setting(env: Entries, new_key: Seq<char>, deprecated_key: Seq<char>, default: Seq<char>) -> Seq<char> {
    match env_with_deprecation(env, new_key, deprecated_key) {
        Some(v) => v,
        None => default,
    }
}

fn read_deprecated_string(env: &EnvVars, new_key: &str, deprecated_key: &str, default: &str) -> (r: String)
    ensures
        r@ == deprecated_string_setting(env.entries@, new_key@, deprecated_key@, default@),
{
    match get_env_with_deprecation(env, new_key, deprecated_key) {
        Some(v) => v,
        None => String::from_str(default),
    }
}

/// The WebSocket URL used for L2 subscriptions, from the L2 RPC URL and its
/// parse outcome, and the dedicated setting when it is set and not blank,
/// with its parse outcome.
pub open spec fn l2_ws_from_parsed(
    l2_rpc_url: Seq<char>,
    l2_parsed: Result<(Seq<char>, Seq<char>), Seq<char>>,
    configured: Option<(Seq<char>, Result<(Seq<char>, Seq<char>), Seq<char>>)>,
) -> Result<Seq<char>, Seq<char>> {
    match l2_parsed {
        Err(e) => Err("L2_RPC_URL must be a valid URL: "@ + e),
        Ok((scheme, _)) => if !(is_http_scheme(scheme) || is_ws_scheme(scheme)) {
            Err("L2_RPC_URL must use the http, https, ws or wss scheme, got '"@ + scheme + "'"@)
        } else {
            match configured {
                Some((u, parsed)) => match parsed {
                    Err(e) => Err("L2_WS_RPC_URL must be a valid URL: "@ + e),
                    Ok((ws, _)) => if is_ws_scheme(ws) {
                        Ok(u)
                    } else {
                        Err("L2_WS_RPC_URL must use the ws or wss scheme, got '"@ + ws + "'"@)
                    },
                },
                None => if is_ws_scheme(scheme) {
                    Ok(l2_rpc_url)
                } else {
                    Err("L2_WS_RPC_URL must be set to a ws:// or wss:// URL when L2_RPC_URL does not use WebSocket"@)
                },
            }
        },
    }
}

/// The WebSocket URL used for L2 subscriptions, from the L2 RPC URL and the
/// optional dedicated setting; a blank setting counts as unset.
pub open spec fn l2_ws_rpc_url_spec(l2_rpc_url: Seq<char>, configured: Option<Seq<char>>) -> Result<Seq<char>, Seq<char>> {
    l2_ws_from_parsed(l2_rpc_url, url_parse(l2_rpc_url), match configured {
        Some(u) => if is_blank(u) { None } else { Some((u, url_parse(u))) },
        None => None,
    })
}

/// The dedicated setting with its parse outcome, as plain values.
pub open spec fn configured_view(configured: Option<(String, Result<ParsedUrl, String>)>)
    -> Option<(Seq<char>, Result<(Seq<char>, Seq<char>), Seq<char>>)> {
    match configured {
        Some((u, p)) => Some((u@, parsed_view(p))),
        None => None,
    }
}

fn scheme_error(prefix: &str, scheme: &str) -> (r: ConfigError)
    ensures
        r.message@ == prefix@ + scheme@ + "'"@,
{
    let mut m = String::from_str(prefix);
    m.append(scheme);
    m.append("'");
    ConfigError { message: m }
}

fn detail_error(prefix: &str, detail: &str) -> (r: ConfigError)
    ensures
        r.message@ == prefix@ + detail@,
{
    let mut m = String::from_str(prefix);
    m.append(detail);
    ConfigError { message: m }
}

/// Picks the WebSocket URL for L2 subscriptions from parse outcomes. The L2
/// RPC URL must have parsed and use http, https, ws or wss. A `configured` URL
/// (the non-blank dedicated setting) must have parsed and use ws or wss, and
/// is then used; otherwise the L2 RPC URL is reused when it is a WebSocket
/// URL, and the setting is reported missing when it is not.
pub fn choose_l2_ws_rpc_url(
    l2_rpc_url: &str,
    l2_parsed: Result<ParsedUrl, String>,
    configured: Option<(String, Result<ParsedUrl, String>)>,
) -> (r: Result<String, ConfigError>)
    ensures
        match r {
            Ok(u) => l2_ws_from_parsed(l2_rpc_url@, parsed_view(l2_parsed), configured_view(configured))
                == Ok::<Seq<char>, Seq<char>>(u@),
            Err(e) => l2_ws_from_parsed(l2_rpc_url@, parsed_view(l2_parsed), configured_view(configured))
                == Err::<Seq<char>, Seq<char>>(e.message@),
        },
{
    let parsed = match l2_parsed {
        Ok(p) => p,
        Err(detail) => return Err(detail_error("L2_RPC_URL must be a valid URL: ", detail.as_str())),
    };
    if !(http_scheme(parsed.scheme.as_str()) || ws_scheme(parsed.scheme.as_str())) {
        return Err(scheme_error("L2_RPC_URL must use the http, https, ws or wss scheme, got '", parsed.scheme.as_str()));
    }
    match configured {
        Some((url, ws_parsed)) => {
            let ws = match ws_parsed {
                Ok(p) => p,
                Err(detail) => return Err(detail_error("L2_WS_RPC_URL must be a valid URL: ", detail.as_str())),
            };
            if ws_scheme(ws.scheme.as_str()) {
                return Ok(url);
            }
            Err(scheme_error("L2_WS_RPC_URL must use the ws or wss scheme, got '", ws.scheme.as_str()))
        },
        None => {
            if ws_scheme(parsed.scheme.as_str()) {
                return Ok(String::from_str(l2_rpc_url));
            }
            Err(ConfigError {
                message: String::from_str("L2_WS_RPC_URL must be set to a ws:// or wss:// URL when L2_RPC_URL does not use WebSocket"),
            })
        },
    }
}

/// Picks the WebSocket URL for L2 subscriptions. The L2 RPC URL must parse and
/// use http, https, ws or wss. A non-blank `configured` URL must parse and use
/// ws or wss, and is then used; otherwise the L2 RPC URL is reused when it is a
/// WebSocket URL, and the setting is reported missing when it is not.
pub fn resolve_l2_ws_rpc_url(l2_rpc_url: &str, configured_l2_ws_rpc_url: Option<String>) -> (r: Result<String, ConfigError>)
    ensures
        match r {
            Ok(u) => l2_ws_rpc_url_spec(l2_rpc_url@, match configured_l2_ws_rpc_url { Some(c) => Some(c@), None => None })
                == Ok::<Seq<char>, Seq<char>>(u@),
            Err(e) => l2_ws_rpc_url_spec(l2_rpc_url@, match configured_l2_ws_rpc_url { Some(c) => Some(c@), None => None })
                == Err::<Seq<char>, Seq<char>>(e.message@),
        },
{
    let l2_parsed = parse_url(l2_rpc_url);
    let configured = match configured_l2_ws_rpc_url {
        Some(url) => if blank(url.as_str()) {
            None
        } else {
            let p = parse_url(url.as_str());
            Some((url, p))
        },
        None => None,
    };
    choose_l2_ws_rpc_url(l2_rpc_url, l2_parsed, configured)
}

/// Splits `s` at every `,`, as `str::split(",")` does.
pub fn split_commas(s: &str) -> (r: Vec<String>)
    ensures
        r@.map_values(|x: String| x@) == split_on(s@, ','),
{
    let cs = chars_of(s);
    let mut out: Vec<String> = Vec::new();
    let mut cur = String::new();
    let mut i: usize = 0;
    assert(cs@.take(0) =~= Seq::<char>::empty());
    assert(out@.map_values(|x: String| x@).push(cur@) =~= split_on(cs@.take(0), ','));
    while i < cs.len()
        invariant
            i <= cs@.len(),
            cs@ == s@,
            out@.map_values(|x: String| x@).push(cur@) == split_on(cs@.take(i as int), ','),
        decreases cs@.len() - i,
    {
        let ghost pre = cs@.take(i as int);
        let ghost nxt = cs@.take(i + 1);
        assert(nxt.drop_last() =~= pre);
        assert(nxt.last() == cs@[i as int]);
        let ghost old_views = out@.map_values(|x: String| x@);
        let ghost old_cur = cur@;
        if cs[i] == ',' {
            let piece = cur;
            out.push(piece);
            cur = String::new();
            assert(out@.map_values(|x: String| x@) =~= old_views.push(old_cur));
            assert(out@.map_values(|x: String| x@).push(cur@) =~= split_on(nxt, ','));
        } else {
            push_char(&mut cur, cs[i]);
            assert(out@.map_values(|x: String| x@) =~= old_views);
            let ghost sp = split_on(pre, ',');
            assert(sp == old_views.push(old_cur));
            assert(out@.map_values(|x: String| x@).push(cur@) =~= sp.update(sp.len() - 1, sp.last().push(cs@[i as int])));
        }
        i = i + 1;
    }
    assert(cs@.take(cs@.len() as int) =~= cs@);
    let ghost views = out@.map_values(|x: String| x@);
    out.push(cur);
    assert(out@.map_values(|x: String| x@) =~= views.push(cur@));
    out
}

/// `s` with a `/` added at its end unless it already ends with one.
pub open spec fn with_trailing_slash(s: Seq<char>) -> Seq<char> {
    if s.len() > 0 && s.last() == '/' { s } else { s.push('/') }
}

fn add_trailing_slash(s: String) -> (r: String)
    ensures
        r@ == with_trailing_slash(s@),
{
    let cs = chars_of(s.as_str());
    if cs.len() > 0 && cs[cs.len() - 1] == '/' {
        s
    } else {
        let mut s = s;
        push_char(&mut s, '/');
        s
    }
}

// ---------------------------------------------------------------------------
// Signer settings

pub open spec fn preconfer_address_setting(env: Entries) -> Result<Option<Seq<u8>>, Seq<char>> {
    match env_lookup(env, "PRECONFER_ADDRESS"@) {
        None => Ok(None),
        Some(v) => match address_value("PRECONFER_ADDRESS"@, v) {
            Ok(b) => Ok(Some(b)),
            Err(e) => Err(e),
        },
    }
}

pub open spec fn signer_error(env: Entries) -> Option<Seq<char>> {
    if preconfer_address_setting(env) is Err {
        err_of(preconfer_address_setting(env))
    } else if env_lookup(env, "CATALYST_NODE_ECDSA_PRIVATE_KEY"@) is None {
        if env_lookup(env, "WEB3SIGNER_L1_URL"@) is None || env_lookup(env, "WEB3SIGNER_L2_URL"@) is None
            || env_lookup(env, "PRECONFER_ADDRESS"@) is None {
            Some("When CATALYST_NODE_ECDSA_PRIVATE_KEY is not set, WEB3SIGNER_L1_URL, WEB3SIGNER_L2_URL and PRECONFER_ADDRESS must be set"@)
        } else {
            None
        }
    } else if env_lookup(env, "WEB3SIGNER_L1_URL"@) is Some || env_lookup(env, "WEB3SIGNER_L2_URL"@) is Some
        || env_lookup(env, "PRECONFER_ADDRESS"@) is Some {
        Some("When CATALYST_NODE_ECDSA_PRIVATE_KEY is set, WEB3SIGNER_L1_URL, WEB3SIGNER_L2_URL and PRECONFER_ADDRESS must not be set"@)
    } else {
        None
    }
}

struct SignerSettings {
    preconfer_address: Option<[u8; 20]>,
    web3signer_l1_url: Option<String>,
    web3signer_l2_url: Option<String>,
    catalyst_node_ecdsa_private_key: Option<String>,
}

pub open spec fn opt_view(o: Option<String>) -> Option<Seq<char>> {
    match o {
        Some(s) => Some(s@),
        None => None,
    }
}

pub open spec fn opt_bytes<const N: usize>(o: Option<[u8; N]>) -> Option<Seq<u8>> {
    match o {
        Some(a) => Some(a@),
        None => None,
    }
}

fn read_signer_settings(env: &EnvVars) -> (r: Result<SignerSettings, ConfigError>)
    ensures
        match r {
            Ok(s) => signer_error(env.entries@) is None
                && preconfer_address_setting(env.entries@) == Ok::<Option<Seq<u8>>, Seq<char>>(opt_bytes(s.preconfer_address))
                && opt_view(s.web3signer_l1_url) == env_lookup(env.entries@, "WEB3SIGNER_L1_URL"@)
                && opt_view(s.web3signer_l2_url) == env_lookup(env.entries@, "WEB3SIGNER_L2_URL"@)
                && opt_view(s.catalyst_node_ecdsa_private_key) == env_lookup(env.entries@, "CATALYST_NODE_ECDSA_PRIVATE_KEY"@),
            Err(e) => signer_error(env.entries@) == Some(e.message@),
        },
{
    let private_key = env.get("CATALYST_NODE_ECDSA_PRIVATE_KEY");
    let preconfer_address = match env.get("PRECONFER_ADDRESS") {
        None => None,
        Some(v) => Some(address_from_text("PRECONFER_ADDRESS", v.as_str())?),
    };
    let l1 = env.get("WEB3SIGNER_L1_URL");
    let l2 = env.get("WEB3SIGNER_L2_URL");
    if private_key.is_none() {
        if l1.is_none() || l2.is_none() || preconfer_address.is_none() {
            return Err(ConfigError {
                message: String::from_str(
                    "When CATALYST_NODE_ECDSA_PRIVATE_KEY is not set, WEB3SIGNER_L1_URL, WEB3SIGNER_L2_URL and PRECONFER_ADDRESS must be set",
                ),
            });
        }
    } else if l1.is_some() || l2.is_some() || preconfer_address.is_some() {
        return Err(ConfigError {
            message: String::from_str(
                "When CATALYST_NODE_ECDSA_PRIVATE_KEY is set, WEB3SIGNER_L1_URL, WEB3SIGNER_L2_URL and PRECONFER_ADDRESS must not be set",
            ),
        });
    }
    Ok(SignerSettings {
        preconfer_address,
        web3signer_l1_url: l1,
        web3signer_l2_url: l2,
        catalyst_node_ecdsa_private_key: private_key,
    })
}

// ---------------------------------------------------------------------------
// L1 settings

pub open spec fn l1_error(env: Entries) -> Option<Seq<char>> {
    let e1 = err_of(u64_setting(env, "L1_BEACON_TIMEOUT_MS"@, 1000));
    let e2 = err_of(u64_setting(env, "EXTRA_GAS_PERCENTAGE"@, 100));
    let e3 = err_of(positive_u64_setting(env, "L1_SLOT_DURATION_SEC"@, 12));
    let e4 = err_of(positive_u64_setting(env, "L1_SLOTS_PER_EPOCH"@, 32));
    let e5 = err_of(positive_u64_setting(env, "PRECONF_HEARTBEAT_MS"@, 2000));
    let e6 = err_of(u64_setting(env, "RPC_DRIVER_PRECONF_TIMEOUT_MS"@, 60000));
    let e7 = err_of(u64_setting(env, "RPC_DRIVER_STATUS_TIMEOUT_MS"@, 1000));
    let e8 = err_of(u64_setting(env, "RPC_DRIVER_RETRY_TIMEOUT_MS"@, 1000));
    let e9 = err_of(u64_setting(env, "RPC_L2_EXECUTION_LAYER_TIMEOUT_MS"@, 1000));
    if e1 is Some { e1 } else if e2 is Some { e2 } else if e3 is Some { e3 } else if e4 is Some { e4 }
    else if e5 is Some { e5 } else if e6 is Some { e6 } else if e7 is Some { e7 } else if e8 is Some { e8 }
    else { e9 }
}

struct L1Settings {
    l1_beacon_url: String,
    l1_beacon_timeout_ms: u64,
    extra_gas_percentage: u64,
    l1_slot_duration_sec: u64,
    l1_slots_per_epoch: u64,
    preconf_heartbeat_ms: u64,
    jwt_secret_file_path: String,
    rpc_driver_preconf_timeout_ms: u64,
    rpc_driver_status_timeout_ms: u64,
    rpc_driver_retry_timeout_ms: u64,
    rpc_l2_execution_layer_timeout_ms: u64,
}

fn read_l1_settings(env: &EnvVars) -> (r: Result<L1Settings, ConfigError>)
    ensures
        match r {
            Ok(s) => {
                let env = env.entries@;
                &&& l1_error(env) is None
                &&& s.l1_beacon_url@ == with_trailing_slash(string_setting(env, "L1_BEACON_URL"@, "http://127.0.0.1:4000"@))
                &&& u64_setting(env, "L1_BEACON_TIMEOUT_MS"@, 1000) == Ok::<u64, Seq<char>>(s.l1_beacon_timeout_ms)
                &&& u64_setting(env, "EXTRA_GAS_PERCENTAGE"@, 100) == Ok::<u64, Seq<char>>(s.extra_gas_percentage)
                &&& positive_u64_setting(env, "L1_SLOT_DURATION_SEC"@, 12) == Ok::<u64, Seq<char>>(s.l1_slot_duration_sec)
                &&& positive_u64_setting(env, "L1_SLOTS_PER_EPOCH"@, 32) == Ok::<u64, Seq<char>>(s.l1_slots_per_epoch)
                &&& positive_u64_setting(env, "PRECONF_HEARTBEAT_MS"@, 2000) == Ok::<u64, Seq<char>>(s.preconf_heartbeat_ms)
                &&& s.jwt_secret_file_path@ == string_setting(env, "JWT_SECRET_FILE_PATH"@, "/tmp/jwtsecret"@)
                &&& u64_setting(env, "RPC_DRIVER_PRECONF_TIMEOUT_MS"@, 60000) == Ok::<u64, Seq<char>>(s.rpc_driver_preconf_timeout_ms)
                &&& u64_setting(env, "RPC_DRIVER_STATUS_TIMEOUT_MS"@, 1000) == Ok::<u64, Seq<char>>(s.rpc_driver_status_timeout_ms)
                &&& u64_setting(env, "RPC_DRIVER_RETRY_TIMEOUT_MS"@, 1000) == Ok::<u64, Seq<char>>(s.rpc_driver_retry_timeout_ms)
                &&& u64_setting(env, "RPC_L2_EXECUTION_LAYER_TIMEOUT_MS"@, 1000) == Ok::<u64, Seq<char>>(s.rpc_l2_execution_layer_timeout_ms)
            },
            Err(e) => l1_error(env.entries@) == Some(e.message@),
        },
{
    let l1_beacon_url = add_trailing_slash(read_string(env, "L1_BEACON_URL", "http://127.0.0.1:4000"));
    let l1_beacon_timeout_ms = read_u64(env, "L1_BEACON_TIMEOUT_MS", 1000)?;
    let extra_gas_percentage = read_u64(env, "EXTRA_GAS_PERCENTAGE", 100)?;
    let l1_slot_duration_sec = read_positive_u64(env, "L1_SLOT_DURATION_SEC", 12)?;
    let l1_slots_per_epoch = read_positive_u64(env, "L1_SLOTS_PER_EPOCH", 32)?;
    let preconf_heartbeat_ms = read_positive_u64(env, "PRECONF_HEARTBEAT_MS", 2000)?;
    let jwt_secret_file_path = read_string(env, "JWT_SECRET_FILE_PATH", "/tmp/jwtsecret");
    let rpc_driver_preconf_timeout_ms = read_u64(env, "RPC_DRIVER_PRECONF_TIMEOUT_MS", 60000)?;
    let rpc_driver_status_timeout_ms = read_u64(env, "RPC_DRIVER_STATUS_TIMEOUT_MS", 1000)?;
    let rpc_driver_retry_timeout_ms = read_u64(env, "RPC_DRIVER_RETRY_TIMEOUT_MS", 1000)?;
    let rpc_l2_execution_layer_timeout_ms = read_u64(env, "RPC_L2_EXECUTION_LAYER_TIMEOUT_MS", 1000)?;
    Ok(L1Settings {
        l1_beacon_url,
        l1_beacon_timeout_ms,
        extra_gas_percentage,
        l1_slot_duration_sec,
        l1_slots_per_epoch,
        preconf_heartbeat_ms,
        jwt_secret_file_path,
        rpc_driver_preconf_timeout_ms,
        rpc_driver_status_timeout_ms,
        rpc_driver_retry_timeout_ms,
        rpc_l2_execution_layer_timeout_ms,
    })
}

// ---------------------------------------------------------------------------
// Contract addresses and batch building settings

pub open spec fn anchor_address_setting(env: Entries) -> Result<Seq<u8>, Seq<char>> {
    address_value("ANCHOR_ADDRESS"@, deprecated_string_setting(env, "ANCHOR_ADDRESS"@, "TAIKO_ANCHOR_ADDRESS"@,
        "0x1670010000000000000000000000000000010001"@))
}

pub open spec fn bridge_l2_address_setting(env: Entries) -> Result<Seq<u8>, Seq<char>> {
    address_value("BRIDGE_L2_ADDRESS"@, deprecated_string_setting(env, "BRIDGE_L2_ADDRESS"@, "TAIKO_BRIDGE_L2_ADDRESS"@,
        "0x0000000000000000000000000000000000000000"@))
}

/// The largest batch in bytes: `BLOBS_PER_BATCH` blobs of `BLOB_MAX_DATA_SIZE`.
pub open spec fn batch_size_setting(env: Entries) -> Result<u64, Seq<char>> {
    match u64_setting(env, "BLOBS_PER_BATCH"@, 5) {
        Err(e) => Err(e),
        Ok(b) => if BLOB_MAX_DATA_SIZE * b > u64::MAX {
            Err("Overflow while computing BLOBS_PER_BATCH * BLOB_MAX_DATA_SIZE. Try to reduce BLOBS_PER_BATCH"@)
        } else {
            Ok((BLOB_MAX_DATA_SIZE * b) as u64)
        },
    }
}

pub open spec fn min_anchor_offset_setting(env: Entries) -> Result<u64, Seq<char>> {
    match u64_setting(env, "MIN_ANCHOR_OFFSET"@, 2) {
        Err(e) => Err(e),
        Ok(v) => if v < 1 {
            Err("MIN_ANCHOR_OFFSET must be at least 1, but got "@ + decimal(v as nat) + "."@)
        } else {
            Ok(v)
        },
    }
}

pub open spec fn min_priority_fee_setting(env: Entries) -> Result<u64, Seq<char>> {
    match u64_setting(env, "MIN_PRIORITY_FEE_PER_GAS_WEI"@, 1000000000) {
        Err(e) => Err(e),
        Ok(v) => if v < 1000000000 {
            Err("MIN_PRIORITY_FEE_PER_GAS_WEI is less than 1 Gwei! It must be at least 1,000,000,000 wei."@)
        } else {
            Ok(v)
        },
    }
}

pub open spec fn batch_error(env: Entries) -> Option<Seq<char>> {
    let e1 = err_of(anchor_address_setting(env));
    let e2 = err_of(bridge_l2_address_setting(env));
    let e3 = err_of(batch_size_setting(env));
    let e4 = err_of(u16_setting(env, "MAX_BLOCKS_PER_BATCH"@, 0));
    let e5 = err_of(u64_setting(env, "MAX_TIME_SHIFT_BETWEEN_BLOCKS_SEC"@, 255));
    let e6 = err_of(u64_setting(env, "MAX_ANCHOR_HEIGHT_OFFSET_REDUCTION_VALUE"@, 10));
    let e7 = err_of(required_u16_setting(env, "MAX_FORCED_INCLUSIONS_PER_PROPOSAL"@));
    let e8 = err_of(min_anchor_offset_setting(env));
    let e9 = err_of(min_priority_fee_setting(env));
    if e1 is Some { e1 } else if e2 is Some { e2 } else if e3 is Some { e3 } else if e4 is Some { e4 }
    else if e5 is Some { e5 } else if e6 is Some { e6 } else if e7 is Some { e7 } else if e8 is Some { e8 }
    else { e9 }
}

struct BatchSettings {
    anchor_address: [u8; 20],
    bridge_l2_address: [u8; 20],
    max_bytes_size_of_batch: u64,
    max_blocks_per_batch: u16,
    max_time_shift_between_blocks_sec: u64,
    max_anchor_height_offset_reduction: u64,
    max_forced_inclusions_per_proposal: u16,
    min_anchor_offset: u64,
    min_priority_fee_per_gas_wei: u64,
}

fn read_batch_settings(env: &EnvVars) -> (r: Result<BatchSettings, ConfigError>)
    ensures
        match r {
            Ok(s) => {
                let env = env.entries@;
                &&& batch_error(env) is None
                &&& anchor_address_setting(env) == Ok::<Seq<u8>, Seq<char>>(s.anchor_address@)
                &&& bridge_l2_address_setting(env) == Ok::<Seq<u8>, Seq<char>>(s.bridge_l2_address@)
                &&& batch_size_setting(env) == Ok::<u64, Seq<char>>(s.max_bytes_size_of_batch)
                &&& u16_setting(env, "MAX_BLOCKS_PER_BATCH"@, 0) == Ok::<u16, Seq<char>>(s.max_blocks_per_batch)
                &&& u64_setting(env, "MAX_TIME_SHIFT_BETWEEN_BLOCKS_SEC"@, 255) == Ok::<u64, Seq<char>>(s.max_time_shift_between_blocks_sec)
                &&& u64_setting(env, "MAX_ANCHOR_HEIGHT_OFFSET_REDUCTION_VALUE"@, 10) == Ok::<u64, Seq<char>>(s.max_anchor_height_offset_reduction)
                &&& required_u16_setting(env, "MAX_FORCED_INCLUSIONS_PER_PROPOSAL"@) == Ok::<u16, Seq<char>>(s.max_forced_inclusions_per_proposal)
                &&& min_anchor_offset_setting(env) == Ok::<u64, Seq<char>>(s.min_anchor_offset)
                &&& min_priority_fee_setting(env) == Ok::<u64, Seq<char>>(s.min_priority_fee_per_gas_wei)
            },
            Err(e) => batch_error(env.entries@) == Some(e.message@),
        },
{
    let anchor_text = read_deprecated_string(env, "ANCHOR_ADDRESS", "TAIKO_ANCHOR_ADDRESS",
        "0x1670010000000000000000000000000000010001");
    let anchor_address = address_from_text("ANCHOR_ADDRESS", anchor_text.as_str())?;
    let bridge_text = read_deprecated_string(env, "BRIDGE_L2_ADDRESS", "TAIKO_BRIDGE_L2_ADDRESS",
        "0x0000000000000000000000000000000000000000");
    let bridge_l2_address = address_from_text("BRIDGE_L2_ADDRESS", bridge_text.as_str())?;
    let blobs_per_batch = read_u64(env, "BLOBS_PER_BATCH", 5)?;
    let max_bytes_size_of_batch = match BLOB_MAX_DATA_SIZE.checked_mul(blobs_per_batch) {
        Some(v) => v,
        None => return Err(ConfigError {
            message: String::from_str(
                "Overflow while computing BLOBS_PER_BATCH * BLOB_MAX_DATA_SIZE. Try to reduce BLOBS_PER_BATCH",
            ),
        }),
    };
    let max_blocks_per_batch = read_u16(env, "MAX_BLOCKS_PER_BATCH", 0)?;
    let max_time_shift_between_blocks_sec = read_u64(env, "MAX_TIME_SHIFT_BETWEEN_BLOCKS_SEC", 255)?;
    let max_anchor_height_offset_reduction = read_u64(env, "MAX_ANCHOR_HEIGHT_OFFSET_REDUCTION_VALUE", 10)?;
    let max_forced_inclusions_per_proposal = read_required_u16(env, "MAX_FORCED_INCLUSIONS_PER_PROPOSAL")?;
    let min_anchor_offset = read_u64(env, "MIN_ANCHOR_OFFSET", 2)?;
    if min_anchor_offset < 1 {
        let mut m = String::from_str("MIN_ANCHOR_OFFSET must be at least 1, but got ");
        append_decimal(&mut m, min_anchor_offset);
        m.append(".");
        return Err(ConfigError { message: m });
    }
    let min_priority_fee_per_gas_wei = read_u64(env, "MIN_PRIORITY_FEE_PER_GAS_WEI", 1000000000)?;
    if min_priority_fee_per_gas_wei < 1000000000 {
        return Err(ConfigError {
            message: String::from_str(
                "MIN_PRIORITY_FEE_PER_GAS_WEI is less than 1 Gwei! It must be at least 1,000,000,000 wei.",
            ),
        });
    }
    Ok(BatchSettings {
        anchor_address,
        bridge_l2_address,
        max_bytes_size_of_batch,
        max_blocks_per_batch,
        max_time_shift_between_blocks_sec,
        max_anchor_height_offset_reduction,
        max_forced_inclusions_per_proposal,
        min_anchor_offset,
        min_priority_fee_per_gas_wei,
    })
}

// ---------------------------------------------------------------------------
// Transaction, funds and block production settings

pub open spec fn tx_error(env: Entries) -> Option<Seq<char>> {
    let e1 = err_of(u64_setting(env, "TX_FEES_INCREASE_PERCENTAGE"@, 0));
    let e2 = err_of(u64_setting(env, "MAX_ATTEMPTS_TO_SEND_TX"@, 4));
    let e3 = err_of(u64_setting(env, "MAX_ATTEMPTS_TO_WAIT_TX"@, 5));
    let e4 = err_of(u64_setting(env, "DELAY_BETWEEN_TX_ATTEMPTS_SEC"@, 63));
    let e5 = err_of(u64_setting(env, "FUNDS_MONITOR_INTERVAL_SEC"@, 60));
    let e6 = err_of(u128_setting(env, "THRESHOLD_ETH"@, 500000000000000000));
    let e7 = err_of(u128_setting(env, "AMOUNT_TO_BRIDGE_FROM_L2_TO_L1"@, 1000000000000000000));
    let e8 = err_of(bool_setting(env, "DISABLE_BRIDGING"@, true));
    let e9 = err_of(u64_setting(env, "MAX_BYTES_PER_TX_LIST"@, BLOB_MAX_DATA_SIZE));
    let e10 = err_of(u64_setting(env, "THROTTLING_FACTOR"@, 2));
    let e11 = err_of(u64_setting(env, "MIN_BYTES_PER_TX_LIST"@, 8192));
    let e12 = err_of(u64_setting(env, "PRECONF_MIN_TXS"@, 3));
    let e13 = err_of(u64_setting(env, "PRECONF_MAX_SKIPPED_L2_SLOTS"@, 2));
    let e14 = err_of(u64_setting(env, "PROPOSAL_MAX_TIME_SEC"@, 384));
    let e15 = err_of(u64_setting(env, "BRIDGE_RELAYER_FEE"@, 3047459064000000));
    let e16 = err_of(u64_setting(env, "BRIDGE_TRANSACTION_FEE"@, 1000000000000000));
    if e1 is Some { e1 } else if e2 is Some { e2 } else if e3 is Some { e3 } else if e4 is Some { e4 }
    else if e5 is Some { e5 } else if e6 is Some { e6 } else if e7 is Some { e7 } else if e8 is Some { e8 }
    else if e9 is Some { e9 } else if e10 is Some { e10 } else if e11 is Some { e11 } else if e12 is Some { e12 }
    else if e13 is Some { e13 } else if e14 is Some { e14 } else if e15 is Some { e15 } else { e16 }
}

struct TxSettings {
    tx_fees_increase_percentage: u64,
    max_attempts_to_send_tx: u64,
    max_attempts_to_wait_tx: u64,
    delay_between_tx_attempts_sec: u64,
    funds_monitor_interval_sec: u64,
    threshold_eth: u128,
    amount_to_bridge_from_l2_to_l1: u128,
    disable_bridging: bool,
    max_bytes_per_tx_list: u64,
    throttling_factor: u64,
    min_bytes_per_tx_list: u64,
    preconf_min_txs: u64,
    preconf_max_skipped_l2_slots: u64,
    proposal_max_time_sec: u64,
    bridge_relayer_fee: u64,
    bridge_transaction_fee: u64,
}

fn read_tx_settings(env: &EnvVars) -> (r: Result<TxSettings, ConfigError>)
    ensures
        match r {
            Ok(s) => {
                let env = env.entries@;
                &&& tx_error(env) is None
                &&& u64_setting(env, "TX_FEES_INCREASE_PERCENTAGE"@, 0) == Ok::<u64, Seq<char>>(s.tx_fees_increase_percentage)
                &&& u64_setting(env, "MAX_ATTEMPTS_TO_SEND_TX"@, 4) == Ok::<u64, Seq<char>>(s.max_attempts_to_send_tx)
                &&& u64_setting(env, "MAX_ATTEMPTS_TO_WAIT_TX"@, 5) == Ok::<u64, Seq<char>>(s.max_attempts_to_wait_tx)
                &&& u64_setting(env, "DELAY_BETWEEN_TX_ATTEMPTS_SEC"@, 63) == Ok::<u64, Seq<char>>(s.delay_between_tx_attempts_sec)
                &&& u64_setting(env, "FUNDS_MONITOR_INTERVAL_SEC"@, 60) == Ok::<u64, Seq<char>>(s.funds_monitor_interval_sec)
                &&& u128_setting(env, "THRESHOLD_ETH"@, 500000000000000000) == Ok::<u128, Seq<char>>(s.threshold_eth)
                &&& u128_setting(env, "AMOUNT_TO_BRIDGE_FROM_L2_TO_L1"@, 1000000000000000000) == Ok::<u128, Seq<char>>(s.amount_to_bridge_from_l2_to_l1)
                &&& bool_setting(env, "DISABLE_BRIDGING"@, true) == Ok::<bool, Seq<char>>(s.disable_bridging)
                &&& u64_setting(env, "MAX_BYTES_PER_TX_LIST"@, BLOB_MAX_DATA_SIZE) == Ok::<u64, Seq<char>>(s.max_bytes_per_tx_list)
                &&& u64_setting(env, "THROTTLING_FACTOR"@, 2) == Ok::<u64, Seq<char>>(s.throttling_factor)
                &&& u64_setting(env, "MIN_BYTES_PER_TX_LIST"@, 8192) == Ok::<u64, Seq<char>>(s.min_bytes_per_tx_list)
                &&& u64_setting(env, "PRECONF_MIN_TXS"@, 3) == Ok::<u64, Seq<char>>(s.preconf_min_txs)
                &&& u64_setting(env, "PRECONF_MAX_SKIPPED_L2_SLOTS"@, 2) == Ok::<u64, Seq<char>>(s.preconf_max_skipped_l2_slots)
                &&& u64_setting(env, "PROPOSAL_MAX_TIME_SEC"@, 384) == Ok::<u64, Seq<char>>(s.proposal_max_time_sec)
                &&& u64_setting(env, "BRIDGE_RELAYER_FEE"@, 3047459064000000) == Ok::<u64, Seq<char>>(s.bridge_relayer_fee)
                &&& u64_setting(env, "BRIDGE_TRANSACTION_FEE"@, 1000000000000000) == Ok::<u64, Seq<char>>(s.bridge_transaction_fee)
            },
            Err(e) => tx_error(env.entries@) == Some(e.message@),
        },
{
    let tx_fees_increase_percentage = read_u64(env, "TX_FEES_INCREASE_PERCENTAGE", 0)?;
    let max_attempts_to_send_tx = read_u64(env, "MAX_ATTEMPTS_TO_SEND_TX", 4)?;
    let max_attempts_to_wait_tx = read_u64(env, "MAX_ATTEMPTS_TO_WAIT_TX", 5)?;
    let delay_between_tx_attempts_sec = read_u64(env, "DELAY_BETWEEN_TX_ATTEMPTS_SEC", 63)?;
    let funds_monitor_interval_sec = read_u64(env, "FUNDS_MONITOR_INTERVAL_SEC", 60)?;
    let threshold_eth = read_u128(env, "THRESHOLD_ETH", 500000000000000000)?;
    let amount_to_bridge_from_l2_to_l1 = read_u128(env, "AMOUNT_TO_BRIDGE_FROM_L2_TO_L1", 1000000000000000000)?;
    let disable_bridging = read_bool(env, "DISABLE_BRIDGING", true)?;
    let max_bytes_per_tx_list = read_u64(env, "MAX_BYTES_PER_TX_LIST", BLOB_MAX_DATA_SIZE)?;
    let throttling_factor = read_u64(env, "THROTTLING_FACTOR", 2)?;
    let min_bytes_per_tx_list = read_u64(env, "MIN_BYTES_PER_TX_LIST", 8192)?;
    let preconf_min_txs = read_u64(env, "PRECONF_MIN_TXS", 3)?;
    let preconf_max_skipped_l2_slots = read_u64(env, "PRECONF_MAX_SKIPPED_L2_SLOTS", 2)?;
    let proposal_max_time_sec = read_u64(env, "PROPOSAL_MAX_TIME_SEC", 384)?;
    let bridge_relayer_fee = read_u64(env, "BRIDGE_RELAYER_FEE", 3047459064000000)?;
    let bridge_transaction_fee = read_u64(env, "BRIDGE_TRANSACTION_FEE", 1000000000000000)?;
    Ok(TxSettings {
        tx_fees_increase_percentage,
        max_attempts_to_send_tx,
        max_attempts_to_wait_tx,
        delay_between_tx_attempts_sec,
        funds_monitor_interval_sec,
        threshold_eth,
        amount_to_bridge_from_l2_to_l1,
        disable_bridging,
        max_bytes_per_tx_list,
        throttling_factor,
        min_bytes_per_tx_list,
        preconf_min_txs,
        preconf_max_skipped_l2_slots,
        proposal_max_time_sec,
        bridge_relayer_fee,
        bridge_transaction_fee,
    })
}

// ---------------------------------------------------------------------------
// Fork, monitoring and internal server settings

pub open spec fn fork_error(env: Entries) -> Option<Seq<char>> {
    let e1 = err_of(u64_setting(env, "FORK_SWITCH_TRANSITION_PERIOD_SEC"@, 60));
    let e2 = err_of(u64_setting(env, "SHASTA_TIMESTAMP_SEC"@, 0));
    let e3 = err_of(u64_setting(env, "PERMISSIONLESS_TIMESTAMP_SEC"@, 99999999999));
    let e4 = err_of(u64_setting(env, "REALTIME_TIMESTAMP_SEC"@, 99999999999));
    let e5 = err_of(u64_setting(env, "WHITELIST_MONITOR_INTERVAL_SEC"@, 60));
    let e6 = err_of(u64_setting(env, "WATCHDOG_MAX_COUNTER"@, 96));
    let e7 = err_of(ipv4_setting(env, "INTERNAL_SERVER_IP"@, seq![0u8, 0u8, 0u8, 0u8]));
    let e8 = err_of(u16_setting(env, "INTERNAL_SERVER_PORT"@, 9898));
    if e1 is Some { e1 } else if e2 is Some { e2 } else if e3 is Some { e3 } else if e4 is Some { e4 }
    else if e5 is Some { e5 } else if e6 is Some { e6 } else if e7 is Some { e7 } else { e8 }
}

struct ForkSettings {
    fork_switch_transition_period_sec: u64,
    shasta_timestamp_sec: u64,
    permissionless_timestamp_sec: u64,
    realtime_timestamp_sec: u64,
    whitelist_monitor_interval_sec: u64,
    watchdog_max_counter: u64,
    internal_server_ip: [u8; 4],
    internal_server_port: u16,
}

fn read_fork_settings(env: &EnvVars) -> (r: Result<ForkSettings, ConfigError>)
    ensures
        match r {
            Ok(s) => {
                let env = env.entries@;
                &&& fork_error(env) is None
                &&& u64_setting(env, "FORK_SWITCH_TRANSITION_PERIOD_SEC"@, 60) == Ok::<u64, Seq<char>>(s.fork_switch_transition_period_sec)
                &&& u64_setting(env, "SHASTA_TIMESTAMP_SEC"@, 0) == Ok::<u64, Seq<char>>(s.shasta_timestamp_sec)
                &&& u64_setting(env, "PERMISSIONLESS_TIMESTAMP_SEC"@, 99999999999) == Ok::<u64, Seq<char>>(s.permissionless_timestamp_sec)
                &&& u64_setting(env, "REALTIME_TIMESTAMP_SEC"@, 99999999999) == Ok::<u64, Seq<char>>(s.realtime_timestamp_sec)
                &&& u64_setting(env, "WHITELIST_MONITOR_INTERVAL_SEC"@, 60) == Ok::<u64, Seq<char>>(s.whitelist_monitor_interval_sec)
                &&& u64_setting(env, "WATCHDOG_MAX_COUNTER"@, 96) == Ok::<u64, Seq<char>>(s.watchdog_max_counter)
                &&& ipv4_setting(env, "INTERNAL_SERVER_IP"@, seq![0u8, 0u8, 0u8, 0u8]) == Ok::<Seq<u8>, Seq<char>>(s.internal_server_ip@)
                &&& u16_setting(env, "INTERNAL_SERVER_PORT"@, 9898) == Ok::<u16, Seq<char>>(s.internal_server_port)
            },
            Err(e) => fork_error(env.entries@) == Some(e.message@),
        },
{
    let fork_switch_transition_period_sec = read_u64(env, "FORK_SWITCH_TRANSITION_PERIOD_SEC", 60)?;
    let shasta_timestamp_sec = read_u64(env, "SHASTA_TIMESTAMP_SEC", 0)?;
    let permissionless_timestamp_sec = read_u64(env, "PERMISSIONLESS_TIMESTAMP_SEC", 99999999999)?;
    let realtime_timestamp_sec = read_u64(env, "REALTIME_TIMESTAMP_SEC", 99999999999)?;
    let whitelist_monitor_interval_sec = read_u64(env, "WHITELIST_MONITOR_INTERVAL_SEC", 60)?;
    let watchdog_max_counter = read_u64(env, "WATCHDOG_MAX_COUNTER", 96)?;
    let default_ip: [u8; 4] = [0, 0, 0, 0];
    assert(default_ip@ =~= seq![0u8, 0u8, 0u8, 0u8]);
    let internal_server_ip = read_ipv4(env, "INTERNAL_SERVER_IP", default_ip)?;
    let internal_server_port = read_u16(env, "INTERNAL_SERVER_PORT", 9898)?;
    Ok(ForkSettings {
        fork_switch_transition_period_sec,
        shasta_timestamp_sec,
        permissionless_timestamp_sec,
        realtime_timestamp_sec,
        whitelist_monitor_interval_sec,
        watchdog_max_counter,
        internal_server_ip,
        internal_server_port,
    })
}

// ---------------------------------------------------------------------------
// L2 endpoints

pub open spec fn l2_rpc_url_setting(env: Entries) -> Seq<char> {
    deprecated_string_setting(env, "L2_RPC_URL"@, "TAIKO_GETH_RPC_URL"@, "ws://127.0.0.1:1234"@)
}

pub open spec fn l2_ws_rpc_url_setting(env: Entries) -> Result<Seq<char>, Seq<char>> {
    l2_ws_rpc_url_spec(l2_rpc_url_setting(env), env_lookup(env, "L2_WS_RPC_URL"@))
}

pub open spec fn l2_auth_rpc_url_setting(env: Entries) -> Seq<char> {
    deprecated_string_setting(env, "L2_AUTH_RPC_URL"@, "TAIKO_GETH_AUTH_RPC_URL"@, "http://127.0.0.1:1235"@)
}

pub open spec fn l2_driver_url_setting(env: Entries) -> Seq<char> {
    deprecated_string_setting(env, "L2_DRIVER_URL"@, "TAIKO_DRIVER_URL"@, "http://127.0.0.1:1236"@)
}

pub open spec fn l1_rpc_urls_setting(env: Entries) -> Seq<Seq<char>> {
    split_on(string_setting(env, "L1_RPC_URLS"@, "wss://127.0.0.1"@), ',')
}

/// The first failing setting, in the order the node reads them.
pub open spec fn config_error(env: Entries) -> Option<Seq<char>> {
    let e1 = signer_error(env);
    let e2 = l1_error(env);
    let e3 = batch_error(env);
    let e4 = tx_error(env);
    let e5 = fork_error(env);
    let e6 = err_of(l2_ws_rpc_url_setting(env));
    if e1 is Some { e1 } else if e2 is Some { e2 } else if e3 is Some { e3 } else if e4 is Some { e4 }
    else if e5 is Some { e5 } else { e6 }
}

/// The node configuration. Durations are in milliseconds, addresses are their
/// 20 bytes, and the internal server's IP is its 4 octets.
pub struct Config {
    // Signer
    pub preconfer_address: Option<[u8; 20]>,
    pub web3signer_l1_url: Option<String>,
    pub web3signer_l2_url: Option<String>,
    pub catalyst_node_ecdsa_private_key: Option<String>,
    // L1
    pub l1_rpc_urls: Vec<String>,
    pub l1_beacon_url: String,
    pub l1_beacon_timeout_ms: u64,
    pub blob_indexer_url: Option<String>,
    pub l1_slot_duration_sec: u64,
    pub l1_slots_per_epoch: u64,
    pub preconf_heartbeat_ms: u64,
    // L2
    pub l2_rpc_url: String,
    pub l2_ws_rpc_url: String,
    pub l2_auth_rpc_url: String,
    pub l2_driver_url: String,
    /// jwt secret file path for L2 EL and L2 driver
    pub jwt_secret_file_path: String,
    pub rpc_l2_execution_layer_timeout_ms: u64,
    pub rpc_driver_preconf_timeout_ms: u64,
    pub rpc_driver_status_timeout_ms: u64,
    pub rpc_driver_retry_timeout_ms: u64,
    // L2 contracts
    pub anchor_address: [u8; 20],
    pub bridge_l2_address: [u8; 20],
    // Batch building parameters
    pub max_bytes_size_of_batch: u64,
    pub max_blocks_per_batch: u16,
    pub max_time_shift_between_blocks_sec: u64,
    pub max_anchor_height_offset_reduction: u64,
    pub max_forced_inclusions_per_proposal: u16,
    /// Minimum offset between calculated anchor block ID and latest L1 height
    pub min_anchor_offset: u64,
    // Transaction parameters
    pub min_priority_fee_per_gas_wei: u64,
    pub tx_fees_increase_percentage: u64,
    pub max_attempts_to_send_tx: u64,
    pub max_attempts_to_wait_tx: u64,
    pub delay_between_tx_attempts_sec: u64,
    pub extra_gas_percentage: u64,
    // Thresholds for balances
    pub funds_monitor_interval_sec: u64,
    pub threshold_eth: u128,
    // Bridging
    pub disable_bridging: bool,
    pub amount_to_bridge_from_l2_to_l1: u128,
    pub bridge_relayer_fee: u64,
    pub bridge_transaction_fee: u64,
    // Block production and throttling
    pub max_bytes_per_tx_list: u64,
    pub min_bytes_per_tx_list: u64,
    pub throttling_factor: u64,
    pub preconf_min_txs: u64,
    pub preconf_max_skipped_l2_slots: u64,
    pub proposal_max_time_sec: u64,
    // fork info
    pub fork_switch_transition_period_sec: u64,
    pub shasta_timestamp_sec: u64,
    pub permissionless_timestamp_sec: u64,
    pub realtime_timestamp_sec: u64,
    // Whitelist monitor
    pub whitelist_monitor_interval_sec: u64,
    // Watchdog
    pub watchdog_max_counter: u64,
    // Internal server
    pub internal_server_ip: [u8; 4],
    pub internal_server_port: u16,
}

impl Config {
    /// Every field of `self` holds the value its setting takes in `env`.
    pub open spec fn read_from(&self, env: Entries) -> bool {
        &&& preconfer_address_setting(env) == Ok::<Option<Seq<u8>>, Seq<char>>(opt_bytes(self.preconfer_address))
        &&& opt_view(self.web3signer_l1_url) == env_lookup(env, "WEB3SIGNER_L1_URL"@)
        &&& opt_view(self.web3signer_l2_url) == env_lookup(env, "WEB3SIGNER_L2_URL"@)
        &&& opt_view(self.catalyst_node_ecdsa_private_key) == env_lookup(env, "CATALYST_NODE_ECDSA_PRIVATE_KEY"@)
        &&& self.l1_rpc_urls@.map_values(|u: String| u@) == l1_rpc_urls_setting(env)
        &&& self.l1_beacon_url@ == with_trailing_slash(string_setting(env, "L1_BEACON_URL"@, "http://127.0.0.1:4000"@))
        &&& u64_setting(env, "L1_BEACON_TIMEOUT_MS"@, 1000) == Ok::<u64, Seq<char>>(self.l1_beacon_timeout_ms)
        &&& opt_view(self.blob_indexer_url) == env_lookup(env, "BLOB_INDEXER_URL"@)
        &&& positive_u64_setting(env, "L1_SLOT_DURATION_SEC"@, 12) == Ok::<u64, Seq<char>>(self.l1_slot_duration_sec)
        &&& positive_u64_setting(env, "L1_SLOTS_PER_EPOCH"@, 32) == Ok::<u64, Seq<char>>(self.l1_slots_per_epoch)
        &&& positive_u64_setting(env, "PRECONF_HEARTBEAT_MS"@, 2000) == Ok::<u64, Seq<char>>(self.preconf_heartbeat_ms)
        &&& self.l2_rpc_url@ == l2_rpc_url_setting(env)
        &&& l2_ws_rpc_url_setting(env) == Ok::<Seq<char>, Seq<char>>(self.l2_ws_rpc_url@)
        &&& self.l2_auth_rpc_url@ == l2_auth_rpc_url_setting(env)
        &&& self.l2_driver_url@ == l2_driver_url_setting(env)
        &&& self.jwt_secret_file_path@ == string_setting(env, "JWT_SECRET_FILE_PATH"@, "/tmp/jwtsecret"@)
        &&& u64_setting(env, "RPC_L2_EXECUTION_LAYER_TIMEOUT_MS"@, 1000) == Ok::<u64, Seq<char>>(self.rpc_l2_execution_layer_timeout_ms)
        &&& u64_setting(env, "RPC_DRIVER_PRECONF_TIMEOUT_MS"@, 60000) == Ok::<u64, Seq<char>>(self.rpc_driver_preconf_timeout_ms)
        &&& u64_setting(env, "RPC_DRIVER_STATUS_TIMEOUT_MS"@, 1000) == Ok::<u64, Seq<char>>(self.rpc_driver_status_timeout_ms)
        &&& u64_setting(env, "RPC_DRIVER_RETRY_TIMEOUT_MS"@, 1000) == Ok::<u64, Seq<char>>(self.rpc_driver_retry_timeout_ms)
        &&& anchor_address_setting(env) == Ok::<Seq<u8>, Seq<char>>(self.anchor_address@)
        &&& bridge_l2_address_setting(env) == Ok::<Seq<u8>, Seq<char>>(self.bridge_l2_address@)
        &&& batch_size_setting(env) == Ok::<u64, Seq<char>>(self.max_bytes_size_of_batch)
        &&& u16_setting(env, "MAX_BLOCKS_PER_BATCH"@, 0) == Ok::<u16, Seq<char>>(self.max_blocks_per_batch)
        &&& u64_setting(env, "MAX_TIME_SHIFT_BETWEEN_BLOCKS_SEC"@, 255) == Ok::<u64, Seq<char>>(self.max_time_shift_between_blocks_sec)
        &&& u64_setting(env, "MAX_ANCHOR_HEIGHT_OFFSET_REDUCTION_VALUE"@, 10) == Ok::<u64, Seq<char>>(self.max_anchor_height_offset_reduction)
        &&& required_u16_setting(env, "MAX_FORCED_INCLUSIONS_PER_PROPOSAL"@) == Ok::<u16, Seq<char>>(self.max_forced_inclusions_per_proposal)
        &&& min_anchor_offset_setting(env) == Ok::<u64, Seq<char>>(self.min_anchor_offset)
        &&& min_priority_fee_setting(env) == Ok::<u64, Seq<char>>(self.min_priority_fee_per_gas_wei)
        &&& u64_setting(env, "TX_FEES_INCREASE_PERCENTAGE"@, 0) == Ok::<u64, Seq<char>>(self.tx_fees_increase_percentage)
        &&& u64_setting(env, "MAX_ATTEMPTS_TO_SEND_TX"@, 4) == Ok::<u64, Seq<char>>(self.max_attempts_to_send_tx)
        &&& u64_setting(env, "MAX_ATTEMPTS_TO_WAIT_TX"@, 5) == Ok::<u64, Seq<char>>(self.max_attempts_to_wait_tx)
        &&& u64_setting(env, "DELAY_BETWEEN_TX_ATTEMPTS_SEC"@, 63) == Ok::<u64, Seq<char>>(self.delay_between_tx_attempts_sec)
        &&& u64_setting(env, "EXTRA_GAS_PERCENTAGE"@, 100) == Ok::<u64, Seq<char>>(self.extra_gas_percentage)
        &&& u64_setting(env, "FUNDS_MONITOR_INTERVAL_SEC"@, 60) == Ok::<u64, Seq<char>>(self.funds_monitor_interval_sec)
        &&& u128_setting(env, "THRESHOLD_ETH"@, 500000000000000000) == Ok::<u128, Seq<char>>(self.threshold_eth)
        &&& bool_setting(env, "DISABLE_BRIDGING"@, true) == Ok::<bool, Seq<char>>(self.disable_bridging)
        &&& u128_setting(env, "AMOUNT_TO_BRIDGE_FROM_L2_TO_L1"@, 1000000000000000000) == Ok::<u128, Seq<char>>(self.amount_to_bridge_from_l2_to_l1)
        &&& u64_setting(env, "BRIDGE_RELAYER_FEE"@, 3047459064000000) == Ok::<u64, Seq<char>>(self.bridge_relayer_fee)
        &&& u64_setting(env, "BRIDGE_TRANSACTION_FEE"@, 1000000000000000) == Ok::<u64, Seq<char>>(self.bridge_transaction_fee)
        &&& u64_setting(env, "MAX_BYTES_PER_TX_LIST"@, BLOB_MAX_DATA_SIZE) == Ok::<u64, Seq<char>>(self.max_bytes_per_tx_list)
        &&& u64_setting(env, "MIN_BYTES_PER_TX_LIST"@, 8192) == Ok::<u64, Seq<char>>(self.min_bytes_per_tx_list)
        &&& u64_setting(env, "THROTTLING_FACTOR"@, 2) == Ok::<u64, Seq<char>>(self.throttling_factor)
        &&& u64_setting(env, "PRECONF_MIN_TXS"@, 3) == Ok::<u64, Seq<char>>(self.preconf_min_txs)
        &&& u64_setting(env, "PRECONF_MAX_SKIPPED_L2_SLOTS"@, 2) == Ok::<u64, Seq<char>>(self.preconf_max_skipped_l2_slots)
        &&& u64_setting(env, "PROPOSAL_MAX_TIME_SEC"@, 384) == Ok::<u64, Seq<char>>(self.proposal_max_time_sec)
        &&& u64_setting(env, "FORK_SWITCH_TRANSITION_PERIOD_SEC"@, 60) == Ok::<u64, Seq<char>>(self.fork_switch_transition_period_sec)
        &&& u64_setting(env, "SHASTA_TIMESTAMP_SEC"@, 0) == Ok::<u64, Seq<char>>(self.shasta_timestamp_sec)
        &&& u64_setting(env, "PERMISSIONLESS_TIMESTAMP_SEC"@, 99999999999) == Ok::<u64, Seq<char>>(self.permissionless_timestamp_sec)
        &&& u64_setting(env, "REALTIME_TIMESTAMP_SEC"@, 99999999999) == Ok::<u64, Seq<char>>(self.realtime_timestamp_sec)
        &&& u64_setting(env, "WHITELIST_MONITOR_INTERVAL_SEC"@, 60) == Ok::<u64, Seq<char>>(self.whitelist_monitor_interval_sec)
        &&& u64_setting(env, "WATCHDOG_MAX_COUNTER"@, 96) == Ok::<u64, Seq<char>>(self.watchdog_max_counter)
        &&& ipv4_setting(env, "INTERNAL_SERVER_IP"@, seq![0u8, 0u8, 0u8, 0u8]) == Ok::<Seq<u8>, Seq<char>>(self.internal_server_ip@)
        &&& u16_setting(env, "INTERNAL_SERVER_PORT"@, 9898) == Ok::<u16, Seq<char>>(self.internal_server_port)
    }

    /// Builds the configuration from the environment: each setting is read
    /// (under its deprecated name too, for renamed ones), defaulted, parsed and
    /// checked in the node's order. The result is the configuration when every
    /// setting is valid, else the error of the first setting that is not.
    pub fn from_env(env: &EnvVars) -> (r: Result<Config, ConfigError>)
        ensures
            match r {
                Ok(c) => config_error(env.entries@) is None && c.read_from(env.entries@),
                Err(e) => config_error(env.entries@) == Some(e.message@),
            },
    {
        let signer = read_signer_settings(env)?;
        let l1 = read_l1_settings(env)?;
        let batch = read_batch_settings(env)?;
        let tx = read_tx_settings(env)?;
        let fork = read_fork_settings(env)?;
        let l2_rpc_url = read_deprecated_string(env, "L2_RPC_URL", "TAIKO_GETH_RPC_URL", "ws://127.0.0.1:1234");
        let l2_ws_rpc_url = resolve_l2_ws_rpc_url(l2_rpc_url.as_str(), env.get("L2_WS_RPC_URL"))?;
        let l2_auth_rpc_url = read_deprecated_string(env, "L2_AUTH_RPC_URL", "TAIKO_GETH_AUTH_RPC_URL", "http://127.0.0.1:1235");
        let l2_driver_url = read_deprecated_string(env, "L2_DRIVER_URL", "TAIKO_DRIVER_URL", "http://127.0.0.1:1236");
        let l1_rpc_urls_text = read_string(env, "L1_RPC_URLS", "wss://127.0.0.1");
        let l1_rpc_urls = split_commas(l1_rpc_urls_text.as_str());
        let blob_indexer_url = env.get("BLOB_INDEXER_URL");
        Ok(Config {
            preconfer_address: signer.preconfer_address,
            web3signer_l1_url: signer.web3signer_l1_url,
            web3signer_l2_url: signer.web3signer_l2_url,
            catalyst_node_ecdsa_private_key: signer.catalyst_node_ecdsa_private_key,
            l1_rpc_urls,
            l1_beacon_url: l1.l1_beacon_url,
            l1_beacon_timeout_ms: l1.l1_beacon_timeout_ms,
            blob_indexer_url,
            l1_slot_duration_sec: l1.l1_slot_duration_sec,
            l1_slots_per_epoch: l1.l1_slots_per_epoch,
            preconf_heartbeat_ms: l1.preconf_heartbeat_ms,
            l2_rpc_url,
            l2_ws_rpc_url,
            l2_auth_rpc_url,
            l2_driver_url,
            jwt_secret_file_path: l1.jwt_secret_file_path,
            rpc_l2_execution_layer_timeout_ms: l1.rpc_l2_execution_layer_timeout_ms,
            rpc_driver_preconf_timeout_ms: l1.rpc_driver_preconf_timeout_ms,
            rpc_driver_status_timeout_ms: l1.rpc_driver_status_timeout_ms,
            rpc_driver_retry_timeout_ms: l1.rpc_driver_retry_timeout_ms,
            anchor_address: batch.anchor_address,
            bridge_l2_address: batch.bridge_l2_address,
            max_bytes_size_of_batch: batch.max_bytes_size_of_batch,
            max_blocks_per_batch: batch.max_blocks_per_batch,
            max_time_shift_between_blocks_sec: batch.max_time_shift_between_blocks_sec,
            max_anchor_height_offset_reduction: batch.max_anchor_height_offset_reduction,
            max_forced_inclusions_per_proposal: batch.max_forced_inclusions_per_proposal,
            min_anchor_offset: batch.min_anchor_offset,
            min_priority_fee_per_gas_wei: batch.min_priority_fee_per_gas_wei,
            tx_fees_increase_percentage: tx.tx_fees_increase_percentage,
            max_attempts_to_send_tx: tx.max_attempts_to_send_tx,
            max_attempts_to_wait_tx: tx.max_attempts_to_wait_tx,
            delay_between_tx_attempts_sec: tx.delay_between_tx_attempts_sec,
            extra_gas_percentage: l1.extra_gas_percentage,
            funds_monitor_interval_sec: tx.funds_monitor_interval_sec,
            threshold_eth: tx.threshold_eth,
            disable_bridging: tx.disable_bridging,
            amount_to_bridge_from_l2_to_l1: tx.amount_to_bridge_from_l2_to_l1,
            bridge_relayer_fee: tx.bridge_relayer_fee,
            bridge_transaction_fee: tx.bridge_transaction_fee,
            max_bytes_per_tx_list: tx.max_bytes_per_tx_list,
            min_bytes_per_tx_list: tx.min_bytes_per_tx_list,
            throttling_factor: tx.throttling_factor,
            preconf_min_txs: tx.preconf_min_txs,
            preconf_max_skipped_l2_slots: tx.preconf_max_skipped_l2_slots,
            proposal_max_time_sec: tx.proposal_max_time_sec,
            fork_switch_transition_period_sec: fork.fork_switch_transition_period_sec,
            shasta_timestamp_sec: fork.shasta_timestamp_sec,
            permissionless_timestamp_sec: fork.permissionless_timestamp_sec,
            realtime_timestamp_sec: fork.realtime_timestamp_sec,
            whitelist_monitor_interval_sec: fork.whitelist_monitor_interval_sec,
            watchdog_max_counter: fork.watchdog_max_counter,
            internal_server_ip: fork.internal_server_ip,
            internal_server_port: fork.internal_server_port,
        })
    }
}

// ---------------------------------------------------------------------------
// Warnings logged while the configuration is read

pub open spec fn opt_seq(o: Option<Seq<char>>) -> Seq<Seq<char>> {
    match o {
        Some(m) => seq![m],
        None => seq![],
    }
}

pub open spec fn when_unset(unset: bool, message: Seq<char>) -> Option<Seq<char>> {
    if unset { Some(message) } else { None }
}

pub open spec fn small_reduction(env: Entries) -> bool {
    u64_setting(env, "MAX_ANCHOR_HEIGHT_OFFSET_REDUCTION_VALUE"@, 10) matches Ok(v) && v < 5
}

/// The warning logged when `unset` holds, as a sequence of at most one line.
pub open spec fn warn_if(unset: bool, message: Seq<char>) -> Seq<Seq<char>> {
    opt_seq(when_unset(unset, message))
}

/// The first error among the L1 settings read before the JWT path.
pub open spec fn l1_head_error(env: Entries) -> Option<Seq<char>> {
    let e1 = err_of(u64_setting(env, "L1_BEACON_TIMEOUT_MS"@, 1000));
    let e2 = err_of(u64_setting(env, "EXTRA_GAS_PERCENTAGE"@, 100));
    let e3 = err_of(positive_u64_setting(env, "L1_SLOT_DURATION_SEC"@, 12));
    let e4 = err_of(positive_u64_setting(env, "L1_SLOTS_PER_EPOCH"@, 32));
    let e5 = err_of(positive_u64_setting(env, "PRECONF_HEARTBEAT_MS"@, 2000));
    if e1 is Some { e1 } else if e2 is Some { e2 } else if e3 is Some { e3 } else if e4 is Some { e4 } else { e5 }
}

/// The first error among the batch settings read after the anchor address and
/// before the forced-inclusion limit.
pub open spec fn batch_head_error(env: Entries) -> Option<Seq<char>> {
    let e2 = err_of(bridge_l2_address_setting(env));
    let e3 = err_of(batch_size_setting(env));
    let e4 = err_of(u16_setting(env, "MAX_BLOCKS_PER_BATCH"@, 0));
    let e5 = err_of(u64_setting(env, "MAX_TIME_SHIFT_BETWEEN_BLOCKS_SEC"@, 255));
    let e6 = err_of(u64_setting(env, "MAX_ANCHOR_HEIGHT_OFFSET_REDUCTION_VALUE"@, 10));
    if e2 is Some { e2 } else if e3 is Some { e3 } else if e4 is Some { e4 } else if e5 is Some { e5 } else { e6 }
}

/// The warnings about the L2 auth RPC and driver URLs.
pub open spec fn l2_endpoint_warnings(env: Entries) -> Seq<Seq<char>> {
    opt_seq(deprecation_warning_spec(env, "L2_AUTH_RPC_URL"@, "TAIKO_GETH_AUTH_RPC_URL"@))
    + warn_if(env_with_deprecation(env, "L2_AUTH_RPC_URL"@, "TAIKO_GETH_AUTH_RPC_URL"@) is None,
        "No L2 auth RPC URL found in L2_AUTH_RPC_URL env var, using default"@)
    + opt_seq(deprecation_warning_spec(env, "L2_DRIVER_URL"@, "TAIKO_DRIVER_URL"@))
    + warn_if(env_with_deprecation(env, "L2_DRIVER_URL"@, "TAIKO_DRIVER_URL"@) is None,
        "No L2 driver URL found in L2_DRIVER_URL env var, using default"@)
}

/// The warnings from the L2 RPC URL on, once every earlier setting is valid.
pub open spec fn warnings_from_l2_rpc(env: Entries) -> Seq<Seq<char>> {
    opt_seq(deprecation_warning_spec(env, "L2_RPC_URL"@, "TAIKO_GETH_RPC_URL"@))
    + warn_if(env_with_deprecation(env, "L2_RPC_URL"@, "TAIKO_GETH_RPC_URL"@) is None,
        "No L2 RPC URL found in L2_RPC_URL env var, using default"@)
    + if l2_ws_rpc_url_setting(env) is Err { seq![] } else { l2_endpoint_warnings(env) }
}

/// The warnings from the anchor height offset reduction on.
pub open spec fn warnings_from_reduction(env: Entries) -> Seq<Seq<char>> {
    warn_if(small_reduction(env),
        "MAX_ANCHOR_HEIGHT_OFFSET_REDUCTION_VALUE is less than 5: you have a small number of slots to call the proposeBatch transaction"@)
    + if batch_error(env) is Some || tx_error(env) is Some || fork_error(env) is Some {
        seq![]
    } else {
        warnings_from_l2_rpc(env)
    }
}

/// The warnings from the bridge address on.
pub open spec fn warnings_from_bridge(env: Entries) -> Seq<Seq<char>> {
    opt_seq(deprecation_warning_spec(env, "BRIDGE_L2_ADDRESS"@, "TAIKO_BRIDGE_L2_ADDRESS"@))
    + warn_if(env_with_deprecation(env, "BRIDGE_L2_ADDRESS"@, "TAIKO_BRIDGE_L2_ADDRESS"@) is None,
        "No Bridge contract address found in BRIDGE_L2_ADDRESS env var, using default"@)
    + if batch_head_error(env) is Some { seq![] } else { warnings_from_reduction(env) }
}

/// The warnings from the anchor address on.
pub open spec fn warnings_from_anchor(env: Entries) -> Seq<Seq<char>> {
    opt_seq(deprecation_warning_spec(env, "ANCHOR_ADDRESS"@, "TAIKO_ANCHOR_ADDRESS"@))
    + if anchor_address_setting(env) is Err { seq![] } else { warnings_from_bridge(env) }
}

/// The warnings from the JWT secret path on.
pub open spec fn warnings_from_jwt(env: Entries) -> Seq<Seq<char>> {
    warn_if(env_lookup(env, "JWT_SECRET_FILE_PATH"@) is None,
        "No JWT secret file path found in JWT_SECRET_FILE_PATH env var, using default"@)
    + if l1_error(env) is Some { seq![] } else { warnings_from_anchor(env) }
}

/// The warnings from the L1 beacon URL on.
pub open spec fn warnings_from_beacon(env: Entries) -> Seq<Seq<char>> {
    warn_if(env_lookup(env, "L1_BEACON_URL"@) is None,
        "No L1 beacon URL found in L1_BEACON_URL env var, using default"@)
    + if l1_head_error(env) is Some { seq![] } else { warnings_from_jwt(env) }
}

/// The warnings the node logs while reading `env`, in the order it reads the
/// settings: defaults taken for unset endpoints and paths, renamed variables
/// set under their old name, and a small anchor height offset reduction.
/// Reading stops at the first invalid setting, and so do the warnings.
pub open spec fn config_warnings(env: Entries) -> Seq<Seq<char>> {
    if signer_error(env) is Some { seq![] } else { warnings_from_beacon(env) }
}

fn push_opt(out: &mut Vec<String>, o: Option<String>)
    ensures
        final(out)@.map_values(|x: String| x@) == old(out)@.map_values(|x: String| x@) + opt_seq(opt_view(o)),
{
    let ghost before = out@.map_values(|x: String| x@);
    match o {
        Some(m) => {
            let ghost mv = m@;
            out.push(m);
            assert(out@.map_values(|x: String| x@) =~= before + seq![mv]);
        },
        None => {
            assert(out@.map_values(|x: String| x@) =~= before + Seq::<Seq<char>>::empty());
        },
    }
}

fn message_when(cond: bool, message: &str) -> (r: Option<String>)
    ensures
        opt_view(r) == when_unset(cond, message@),
{
    if cond { Some(String::from_str(message)) } else { None }
}

/// Whether the L1 settings read before the JWT path are valid.
fn l1_head_valid(env: &EnvVars) -> (r: bool)
    ensures
        r == (l1_head_error(env.entries@) is None),
{
    read_u64(env, "L1_BEACON_TIMEOUT_MS", 1000).is_ok()
        && read_u64(env, "EXTRA_GAS_PERCENTAGE", 100).is_ok()
        && read_positive_u64(env, "L1_SLOT_DURATION_SEC", 12).is_ok()
        && read_positive_u64(env, "L1_SLOTS_PER_EPOCH", 32).is_ok()
        && read_positive_u64(env, "PRECONF_HEARTBEAT_MS", 2000).is_ok()
}

/// Whether the batch settings from the bridge address to the anchor height
/// offset reduction are valid.
fn batch_head_valid(env: &EnvVars) -> (r: bool)
    ensures
        r == (batch_head_error(env.entries@) is None),
{
    let bridge_text = read_deprecated_string(env, "BRIDGE_L2_ADDRESS", "TAIKO_BRIDGE_L2_ADDRESS",
        "0x0000000000000000000000000000000000000000");
    if address_from_text("BRIDGE_L2_ADDRESS", bridge_text.as_str()).is_err() {
        return false;
    }
    match read_u64(env, "BLOBS_PER_BATCH", 5) {
        Err(_) => return false,
        Ok(b) => if BLOB_MAX_DATA_SIZE.checked_mul(b).is_none() {
            return false;
        },
    }
    read_u16(env, "MAX_BLOCKS_PER_BATCH", 0).is_ok()
        && read_u64(env, "MAX_TIME_SHIFT_BETWEEN_BLOCKS_SEC", 255).is_ok()
        && read_u64(env, "MAX_ANCHOR_HEIGHT_OFFSET_REDUCTION_VALUE", 10).is_ok()
}

fn push_l2_rpc_warnings(env: &EnvVars, out: &mut Vec<String>)
    ensures
        final(out)@.map_values(|x: String| x@) == old(out)@.map_values(|x: String| x@) + warnings_from_l2_rpc(env.entries@),
{
    let ghost e = env.entries@;
    let ghost start = out@.map_values(|x: String| x@);
    push_opt(out, deprecation_warning(env, "L2_RPC_URL", "TAIKO_GETH_RPC_URL"));
    let l2_unset = get_env_with_deprecation(env, "L2_RPC_URL", "TAIKO_GETH_RPC_URL").is_none();
    push_opt(out, message_when(l2_unset, "No L2 RPC URL found in L2_RPC_URL env var, using default"));
    let ghost mid = out@.map_values(|x: String| x@);
    let l2_rpc_url = read_deprecated_string(env, "L2_RPC_URL", "TAIKO_GETH_RPC_URL", "ws://127.0.0.1:1234");
    let ws_ok = resolve_l2_ws_rpc_url(l2_rpc_url.as_str(), env.get("L2_WS_RPC_URL")).is_ok();
    if !ws_ok {
        assert(out@.map_values(|x: String| x@) =~= start + warnings_from_l2_rpc(e));
        return;
    }
    push_opt(out, deprecation_warning(env, "L2_AUTH_RPC_URL", "TAIKO_GETH_AUTH_RPC_URL"));
    let auth_unset = get_env_with_deprecation(env, "L2_AUTH_RPC_URL", "TAIKO_GETH_AUTH_RPC_URL").is_none();
    push_opt(out, message_when(auth_unset, "No L2 auth RPC URL found in L2_AUTH_RPC_URL env var, using default"));
    push_opt(out, deprecation_warning(env, "L2_DRIVER_URL", "TAIKO_DRIVER_URL"));
    let driver_unset = get_env_with_deprecation(env, "L2_DRIVER_URL", "TAIKO_DRIVER_URL").is_none();
    push_opt(out, message_when(driver_unset, "No L2 driver URL found in L2_DRIVER_URL env var, using default"));
    assert(out@.map_values(|x: String| x@) =~= mid + l2_endpoint_warnings(e));
    assert(out@.map_values(|x: String| x@) =~= start + warnings_from_l2_rpc(e));
}

fn push_bridge_warnings(env: &EnvVars, out: &mut Vec<String>)
    ensures
        final(out)@.map_values(|x: String| x@) == old(out)@.map_values(|x: String| x@) + warnings_from_bridge(env.entries@),
{
    let ghost e = env.entries@;
    let ghost start = out@.map_values(|x: String| x@);
    push_opt(out, deprecation_warning(env, "BRIDGE_L2_ADDRESS", "TAIKO_BRIDGE_L2_ADDRESS"));
    let bridge_unset = get_env_with_deprecation(env, "BRIDGE_L2_ADDRESS", "TAIKO_BRIDGE_L2_ADDRESS").is_none();
    push_opt(out, message_when(bridge_unset, "No Bridge contract address found in BRIDGE_L2_ADDRESS env var, using default"));
    let ghost mid = out@.map_values(|x: String| x@);
    if !batch_head_valid(env) {
        assert(out@.map_values(|x: String| x@) =~= start + warnings_from_bridge(e));
        return;
    }
    let small = match read_u64(env, "MAX_ANCHOR_HEIGHT_OFFSET_REDUCTION_VALUE", 10) {
        Ok(v) => v < 5,
        Err(_) => false,
    };
    push_opt(out, message_when(small,
        "MAX_ANCHOR_HEIGHT_OFFSET_REDUCTION_VALUE is less than 5: you have a small number of slots to call the proposeBatch transaction"));
    let ghost mid2 = out@.map_values(|x: String| x@);
    let rest_valid = read_batch_settings(env).is_ok() && read_tx_settings(env).is_ok() && read_fork_settings(env).is_ok();
    if rest_valid {
        push_l2_rpc_warnings(env, out);
    }
    assert(out@.map_values(|x: String| x@) =~= mid + warnings_from_reduction(e));
    assert(out@.map_values(|x: String| x@) =~= start + warnings_from_bridge(e));
}

/// The warnings to log for the environment `env`, in order, up to the first
/// invalid setting.
pub fn config_warnings_for(env: &EnvVars) -> (r: Vec<String>)
    ensures
        r@.map_values(|x: String| x@) == config_warnings(env.entries@),
{
    let ghost e = env.entries@;
    let mut out: Vec<String> = Vec::new();
    assert(out@.map_values(|x: String| x@) =~= Seq::<Seq<char>>::empty());
    if read_signer_settings(env).is_err() {
        return out;
    }
    let beacon_unset = env.get("L1_BEACON_URL").is_none();
    push_opt(&mut out, message_when(beacon_unset, "No L1 beacon URL found in L1_BEACON_URL env var, using default"));
    let ghost w1 = out@.map_values(|x: String| x@);
    if l1_head_valid(env) {
        let jwt_unset = env.get("JWT_SECRET_FILE_PATH").is_none();
        push_opt(&mut out, message_when(jwt_unset, "No JWT secret file path found in JWT_SECRET_FILE_PATH env var, using default"));
        let ghost w2 = out@.map_values(|x: String| x@);
        if read_l1_settings(env).is_ok() {
            push_opt(&mut out, deprecation_warning(env, "ANCHOR_ADDRESS", "TAIKO_ANCHOR_ADDRESS"));
            let ghost w3 = out@.map_values(|x: String| x@);
            let anchor_text = read_deprecated_string(env, "ANCHOR_ADDRESS", "TAIKO_ANCHOR_ADDRESS",
                "0x1670010000000000000000000000000000010001");
            if address_from_text("ANCHOR_ADDRESS", anchor_text.as_str()).is_ok() {
                push_bridge_warnings(env, &mut out);
            }
            assert(out@.map_values(|x: String| x@) =~= w2 + warnings_from_anchor(e));
        }
        assert(out@.map_values(|x: String| x@) =~= w1 + warnings_from_jwt(e));
    }
    assert(out@.map_values(|x: String| x@) =~= config_warnings(e));
    out
}

} // verus!
