//! The transport front door: routing, role assignment and the leader gate.
//!
//! A new connection's role is fixed once, at accept time, from the peer's
//! network origin: loopback means leader. Requests for the leader-only
//! entry page from anywhere else receive the not-found page, never the
//! content. All other paths resolve to a served asset, with a missing
//! asset falling back to the same not-found page. Upload requests carry the
//! participant slot as the numeric part of their path.

use vstd::prelude::*;
use vstd::string::StringExecFns;

use crate::registry::Role;

verus! {

/// Loopback origin makes the leader; every other origin a follower. Decided
/// exactly once, at connection-accept time.
pub fn role_from_origin(is_loopback: bool) -> (r: Role)
    ensures
        r == (if is_loopback {
            Role::Leader
        } else {
            Role::Follower
        }),
{
    if is_loopback {
        Role::Leader
    } else {
        Role::Follower
    }
}

/// The asset name a request path resolves to: `/` means the index page, a
/// leading slash is dropped, anything else is taken as is.
pub open spec fn normalize_path_spec(p: Seq<char>) -> Seq<char> {
    if p =~= "/"@ {
        "index.html"@
    } else if p.len() > 0 && p[0] == '/' {
        p.skip(1)
    } else {
        p
    }
}

/// Resolves a request path to an asset name.
pub fn normalize_path(path: &str) -> (r: String)
    ensures
        r@ == normalize_path_spec(path@),
{
    proof {
        reveal_strlit("/");
    }
    let len = path.unicode_len();
    if len == 1 && path.get_char(0) == '/' {
        proof {
            assert(path@ =~= "/"@);
        }
        String::from_str("index.html")
    } else if len > 0 && path.get_char(0) == '/' {
        let rest = path.substring_char(1, len);
        proof {
            assert(rest@ =~= path@.skip(1));
        }
        String::from_str(rest)
    } else {
        String::from_str(path)
    }
}

/// What the front door answers a request with.
pub enum RouteDecision {
    /// Serve the fixed not-found page; used both for the gated leader page
    /// and (after lookup) for assets that do not exist.
    NotFound,
    /// Look the named asset up and serve it.
    Asset(String),
}

/// Routes one request: a non-loopback request for the leader-only entry
/// page gets the not-found page, never the content; every other request
/// resolves to its asset. The decision depends only on the path and the
/// origin, never on how many sessions have registered.
pub fn route_request(path: &str, is_loopback: bool) -> (d: RouteDecision)
    ensures
        (normalize_path_spec(path@) == "leader.html"@ && !is_loopback) <==> d is NotFound,
        !(normalize_path_spec(path@) == "leader.html"@ && !is_loopback) ==> (
        d matches RouteDecision::Asset(a) && a@ == normalize_path_spec(path@)),
{
    let name = normalize_path(path);
    if !is_loopback && name == String::from_str("leader.html") {
        RouteDecision::NotFound
    } else {
        RouteDecision::Asset(name)
    }
}

/// The content type mime_guess infers from an asset name's extension, if
/// any. A function of the name alone.
pub uninterp spec fn mime_guess_of(name: Seq<char>) -> Option<Seq<char>>;

/// Relies on `mime_guess::from_path` and `MimeGuess::first_raw`: the
/// guessed content type depends on the path's extension alone.
#[verifier::external_body]
fn guess_mime(name: &str) -> (r: Option<String>)
    ensures
        match r {
            Some(m) => mime_guess_of(name@) == Some(m@),
            None => mime_guess_of(name@) is None,
        },
{
    match mime_guess::from_path(name).first_raw() {
        Some(m) => Some(m.to_string()),
        None => None,
    }
}

/// The content type an asset is served with: the guessed type, or the
/// byte-stream default when the extension is unknown.
pub open spec fn content_type_spec(name: Seq<char>) -> Seq<char> {
    match mime_guess_of(name) {
        Some(m) => m,
        None => "application/octet-stream"@,
    }
}

/// How a completed asset lookup is answered: found assets are served with
/// their guessed content type, missing ones fall back to the not-found page
/// served as HTML.
pub struct ResponsePlan {
    /// Whether the asset body is served (else the not-found page).
    pub found: bool,
    /// The content type of the response.
    pub content_type: String,
}

/// Plans the response once the owner has looked the asset up: `found` says
/// whether the embedded asset store had it.
pub fn asset_response_plan(name: &str, found: bool) -> (p: ResponsePlan)
    ensures
        p.found == found,
        found ==> p.content_type@ == content_type_spec(name@),
        !found ==> p.content_type@ == "text/html"@,
{
    if found {
        let content_type = match guess_mime(name) {
            Some(m) => m,
            None => String::from_str("application/octet-stream"),
        };
        ResponsePlan { found: true, content_type }
    } else {
        ResponsePlan { found: false, content_type: String::from_str("text/html") }
    }
}

/// A decimal digit.
pub open spec fn is_dec_digit(c: char) -> bool {
    '0' as int <= c as int && c as int <= '9' as int
}

/// The digit characters of `p`, in order.
pub open spec fn digits_of(p: Seq<char>) -> Seq<char>
    decreases p.len(),
{
    if p.len() == 0 {
        Seq::empty()
    } else if is_dec_digit(p.last()) {
        digits_of(p.drop_last()).push(p.last())
    } else {
        digits_of(p.drop_last())
    }
}

/// The value of a digit string, most significant digit first.
pub open spec fn dec_val(ds: Seq<char>) -> nat
    decreases ds.len(),
{
    if ds.len() == 0 {
        0
    } else {
        dec_val(ds.drop_last()) * 10 + ((ds.last() as int - '0' as int) as nat)
    }
}

/// The participant slot a request path names: the value of the path's digit
/// characters, or slot 0 when there are none or their value does not fit.
pub open spec fn slot_spec(p: Seq<char>) -> nat {
    if dec_val(digits_of(p)) > u64::MAX {
        0
    } else {
        dec_val(digits_of(p))
    }
}

/// Reads the participant slot off an upload path: the digits of the path
/// (`/save/7` names slot 7), with slot 0 for a bare `/save` or an
/// out-of-range value.
pub fn slot_from_path(path: &str) -> (slot: u64)
    ensures
        slot as nat == slot_spec(path@),
{
    let len = path.unicode_len();
    let mut val: u64 = 0;
    let mut overflow = false;
    let mut i: usize = 0;
    while i < len
        invariant
            len == path@.len(),
            i <= len,
            !overflow ==> val as nat == dec_val(digits_of(path@.take(i as int))),
            overflow ==> dec_val(digits_of(path@.take(i as int))) > u64::MAX,
        decreases len - i,
    {
        let c = path.get_char(i);
        let cv: u32 = c as u32;
        proof {
            assert(path@.take(i + 1).drop_last() =~= path@.take(i as int));
            assert(path@.take(i + 1).last() == path@[i as int]);
        }
        if 48 <= cv && cv <= 57 {
            let d: u64 = (cv - 48) as u64;
            proof {
                let pre = path@.take(i as int);
                let ds = digits_of(pre);
                let c2 = path@[i as int];
                assert(is_dec_digit(c2));
                assert(digits_of(path@.take(i + 1)) == ds.push(c2));
                assert(ds.push(c2).drop_last() =~= ds);
                assert(dec_val(ds.push(c2)) == dec_val(ds) * 10 + ((c2 as int - '0' as int)
                    as nat));
                assert((c2 as int - '0' as int) as nat == d as nat);
            }
            if !overflow && val <= (u64::MAX - d) / 10 {
                proof {
                    assert(10 * ((u64::MAX - d) / 10) <= u64::MAX - d);
                    assert(val * 10 + d <= u64::MAX);
                }
                val = val * 10 + d;
            } else {
                proof {
                    let ds = digits_of(path@.take(i as int));
                    if dec_val(ds) > u64::MAX {
                        assert(dec_val(ds) * 10 + (d as nat) >= dec_val(ds));
                    } else {
                        assert(dec_val(ds) == val as nat);
                        assert(val > (u64::MAX - d) / 10);
                        assert(10 * ((u64::MAX - d) / 10) + ((u64::MAX - d) % 10) == u64::MAX
                            - d);
                        assert(val * 10 + d > u64::MAX);
                    }
                }
                overflow = true;
            }
        }
        i += 1;
    }
    proof {
        assert(path@.take(len as int) =~= path@);
    }
    if overflow {
        0
    } else {
        val
    }
}

} // verus!
