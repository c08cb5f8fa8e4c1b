//! Hardening headers stamped on every response.
use crate::text::text_eq;
use vstd::prelude::*;

verus! {

pub type HeaderPairs = Seq<(Seq<char>, Seq<char>)>;

/// The fixed header set, by lowercase name, with exact values. The content
/// security policy suits an API that serves JSON only: nothing may load, frame
/// the response, set a base or submit a form.
pub open spec fn security_header_set() -> HeaderPairs {
    seq![
        ("strict-transport-security"@, "max-age=31536000; includeSubDomains"@),
        ("x-content-type-options"@, "nosniff"@),
        ("x-frame-options"@, "DENY"@),
        ("x-xss-protection"@, "0"@),
        ("referrer-policy"@, "strict-origin-when-cross-origin"@),
        ("permissions-policy"@, "geolocation=(), microphone=(), camera=()"@),
        (
            "content-security-policy"@,
            "default-src 'none'; frame-ancestors 'none'; base-uri 'none'; form-action 'none'"@,
        ),
        ("cache-control"@, "no-store, no-cache, must-revalidate, private"@),
        ("pragma"@, "no-cache"@),
    ]
}

pub open spec fn is_fixed_name(name: Seq<char>) -> bool {
    exists|j: int| 0 <= j < security_header_set().len() && #[trigger] security_header_set()[j].0 == name
}

pub open spec fn pairs_view(v: Seq<(String, String)>) -> HeaderPairs {
    v.map_values(|p: (String, String)| (p.0@, p.1@))
}

/// The headers of `s` whose names are not in the fixed set, in their order.
pub open spec fn without_fixed(s: HeaderPairs) -> HeaderPairs
    decreases s.len(),
{
    if s.len() == 0 {
        s
    } else {
        let rest = without_fixed(s.drop_last());
        if is_fixed_name(s.last().0) {
            rest
        } else {
            rest.push(s.last())
        }
    }
}

/// A response's headers after stamping: its own headers but those of the fixed
/// names, then the fixed set.
pub open spec fn stamped(s: HeaderPairs) -> HeaderPairs {
    without_fixed(s) + security_header_set()
}

/// Security headers middleware: purely additive, never touches status or body.
#[derive(Clone, Copy, Debug)]
pub struct SecurityHeaders;

impl Default for SecurityHeaders {
    fn default() -> (r: SecurityHeaders) {
        SecurityHeaders::new()
    }
}

impl SecurityHeaders {
    pub fn new() -> (r: SecurityHeaders) {
        SecurityHeaders
    }

    /// The fixed header set as (name, value) pairs.
    pub fn header_set() -> (r: Vec<(String, String)>)
        ensures
            pairs_view(r@) == security_header_set(),
    {
        let r = vec![
            ("strict-transport-security".to_string(), "max-age=31536000; includeSubDomains".to_string()),
            ("x-content-type-options".to_string(), "nosniff".to_string()),
            ("x-frame-options".to_string(), "DENY".to_string()),
            ("x-xss-protection".to_string(), "0".to_string()),
            ("referrer-policy".to_string(), "strict-origin-when-cross-origin".to_string()),
            ("permissions-policy".to_string(), "geolocation=(), microphone=(), camera=()".to_string()),
            (
                "content-security-policy".to_string(),
                "default-src 'none'; frame-ancestors 'none'; base-uri 'none'; form-action 'none'".to_string(),
            ),
            ("cache-control".to_string(), "no-store, no-cache, must-revalidate, private".to_string()),
            ("pragma".to_string(), "no-cache".to_string()),
        ];
        assert(pairs_view(r@) =~= security_header_set());
        r
    }

    fn is_fixed(fixed: &Vec<(String, String)>, name: &str) -> (r: bool)
        requires
            pairs_view(fixed@) == security_header_set(),
        ensures
            r == is_fixed_name(name@),
    {
        let mut j: usize = 0;
        while j < fixed.len()
            invariant
                pairs_view(fixed@) == security_header_set(),
                j <= fixed@.len(),
                forall|k: int| 0 <= k < j ==> security_header_set()[k].0 != name@,
            decreases fixed@.len() - j,
        {
            assert(pairs_view(fixed@)[j as int] == (fixed@[j as int].0@, fixed@[j as int].1@));
            if text_eq(fixed[j].0.as_str(), name) {
                assert(security_header_set()[j as int].0 == name@);
                return true;
            }
            j += 1;
        }
        assert(security_header_set().len() == fixed@.len());
        false
    }

    /// Stamps the fixed set on a response's headers (lowercase names): each fixed
    /// header replaces whatever values its name had, every other header stays.
    pub fn apply(&self, headers: &mut Vec<(String, String)>)
        ensures
            pairs_view(final(headers)@) == stamped(pairs_view(old(headers)@)),
    {
        let fixed = SecurityHeaders::header_set();
        let ghost before = pairs_view(headers@);
        let mut out: Vec<(String, String)> = Vec::new();
        let n = headers.len();
        let mut i: usize = 0;
        while i < n
            invariant
                n == headers@.len(),
                before == pairs_view(headers@),
                pairs_view(fixed@) == security_header_set(),
                i <= n,
                pairs_view(out@) == without_fixed(before.subrange(0, i as int)),
            decreases n - i,
        {
            let name = headers[i].0.clone();
            let value = headers[i].1.clone();
            assert(before.subrange(0, i + 1).drop_last() =~= before.subrange(0, i as int));
            assert(before.subrange(0, i + 1).last() == (name@, value@));
            if !SecurityHeaders::is_fixed(&fixed, name.as_str()) {
                out.push((name, value));
            }
            assert(pairs_view(out@) =~= without_fixed(before.subrange(0, i + 1)));
            i += 1;
        }
        assert(before.subrange(0, n as int) =~= before);
        let ghost kept = pairs_view(out@);
        let mut j: usize = 0;
        while j < fixed.len()
            invariant
                pairs_view(fixed@) == security_header_set(),
                j <= fixed@.len(),
                kept == without_fixed(before),
                pairs_view(out@) == kept + security_header_set().subrange(0, j as int),
            decreases fixed@.len() - j,
        {
            assert(pairs_view(fixed@)[j as int] == (fixed@[j as int].0@, fixed@[j as int].1@));
            let ghost prev = out@;
            let name = fixed[j].0.clone();
            let value = fixed[j].1.clone();
            out.push((name, value));
            assert(out@ == prev.push((name, value)));
            assert(pairs_view(out@) =~= pairs_view(prev).push((name@, value@)));
            assert(pairs_view(out@) =~= kept + security_header_set().subrange(0, j + 1));
            j += 1;
        }
        assert(security_header_set().subrange(0, 9) =~= security_header_set());
        *headers = out;
    }
}

proof fn lemma_without_fixed_has_none(s: HeaderPairs)
    ensures
        forall|i: int|
            0 <= i < without_fixed(s).len() ==> !is_fixed_name(#[trigger] without_fixed(s)[i].0),
    decreases s.len(),
{
    if s.len() > 0 {
        lemma_without_fixed_has_none(s.drop_last());
        let rest = without_fixed(s.drop_last());
        if !is_fixed_name(s.last().0) {
            assert forall|i: int| 0 <= i < without_fixed(s).len() implies !is_fixed_name(
                #[trigger] without_fixed(s)[i].0,
            ) by {
                if i < rest.len() {
                    assert(without_fixed(s)[i] == rest[i]);
                }
            }
        }
    }
}

/// Whatever headers a response had, after stamping it carries every header of
/// the fixed set, and any header of a fixed name is exactly one of the set.
pub proof fn lemma_every_response_stamped(s: HeaderPairs)
    ensures
        forall|j: int|
            0 <= j < security_header_set().len() ==> stamped(s).contains(
                #[trigger] security_header_set()[j],
            ),
        forall|i: int|
            0 <= i < stamped(s).len() && is_fixed_name(#[trigger] stamped(s)[i].0) ==> exists|
                j: int,
            |
                0 <= j < security_header_set().len() && stamped(s)[i] == security_header_set()[j],
{
    lemma_without_fixed_has_none(s);
    let k = without_fixed(s).len();
    assert forall|j: int| 0 <= j < security_header_set().len() implies stamped(s).contains(
        #[trigger] security_header_set()[j],
    ) by {
        assert(stamped(s)[k + j] == security_header_set()[j]);
    }
    assert forall|i: int|
        0 <= i < stamped(s).len() && is_fixed_name(#[trigger] stamped(s)[i].0) implies exists|
            j: int,
        |
            0 <= j < security_header_set().len() && stamped(s)[i] == security_header_set()[j] by {
        if i < k {
            assert(stamped(s)[i] == without_fixed(s)[i]);
        } else {
            assert(stamped(s)[i] == security_header_set()[i - k]);
        }
    }
}

} // verus!
