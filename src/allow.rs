//! Allow-lists of URL prefixes.

use vstd::prelude::*;
use vstd::string::StringExecFns;
use vstd::utf8::encode_utf8;

verus! {

/// A widely used search engine's origin, permitted by the default list.
pub const SEARCH_ORIGIN: &'static str = "https://www.baidu.com";

/// The example API's origin, permitted by the default list.
pub const API_ORIGIN: &'static str = "https://api.example.com";

/// The byte sequence `s` begins with the byte sequence `p`.
pub open spec fn starts_with_bytes(s: Seq<u8>, p: Seq<u8>) -> bool {
    p.len() <= s.len() && s.subrange(0, p.len() as int) == p
}

/// The UTF-8 encoding of `url` begins with the UTF-8 encoding of one of the
/// `prefixes`: the comparison is made byte by byte, as `str::starts_with` does.
pub open spec fn permitted(prefixes: Seq<Seq<char>>, url: Seq<char>) -> bool {
    exists|i: int|
        0 <= i < prefixes.len() && starts_with_bytes(encode_utf8(url), encode_utf8(#[trigger] prefixes[i]))
}

/// Whether `s` begins with `p`, byte by byte.
pub fn bytes_start_with(s: &[u8], p: &[u8]) -> (r: bool)
    ensures
        r == starts_with_bytes(s@, p@),
{
    if p.len() > s.len() {
        return false;
    }
    let mut i: usize = 0;
    while i < p.len()
        invariant
            p@.len() <= s@.len(),
            i <= p@.len(),
            forall|j: int| 0 <= j < i ==> s@[j] == p@[j],
        decreases p@.len() - i,
    {
        if s[i] != p[i] {
            assert(s@.subrange(0, p@.len() as int)[i as int] != p@[i as int]);
            return false;
        }
        i = i + 1;
    }
    assert(s@.subrange(0, p@.len() as int) =~= p@);
    true
}

/// An ordered, fixed set of permitted URL prefixes. A URL is admitted when it
/// begins with at least one of them; an empty list admits nothing.
pub struct AllowList {
    pub prefixes: Vec<String>,
}

impl View for AllowList {
    type V = Seq<Seq<char>>;

    open spec fn view(&self) -> Seq<Seq<char>> {
        self.prefixes@.map_values(|p: String| p@)
    }
}

impl AllowList {
    /// The list made of the given prefixes, in their order.
    pub fn new(prefixes: Vec<String>) -> (r: AllowList)
        ensures
            r@ == prefixes@.map_values(|p: String| p@),
    {
        AllowList { prefixes }
    }

    /// The list that admits the search engine's and the example API's origins.
    pub fn default_domains() -> (r: AllowList)
        ensures
            r@ == seq![SEARCH_ORIGIN@, API_ORIGIN@],
    {
        let mut prefixes: Vec<String> = Vec::new();
        prefixes.push(String::from_str(SEARCH_ORIGIN));
        prefixes.push(String::from_str(API_ORIGIN));
        let r = AllowList { prefixes };
        assert(r@ =~= seq![SEARCH_ORIGIN@, API_ORIGIN@]);
        r
    }

    /// Whether `url` begins with one of the prefixes.
    pub fn permits(&self, url: &str) -> (r: bool)
        ensures
            r == permitted(self@, url@),
    {
        let u = url.as_bytes();
        let mut i: usize = 0;
        while i < self.prefixes.len()
            invariant
                i <= self.prefixes@.len(),
                u@ == encode_utf8(url@),
                forall|j: int|
                    0 <= j < i ==> !starts_with_bytes(encode_utf8(url@), encode_utf8(#[trigger] self@[j])),
            decreases self.prefixes@.len() - i,
        {
            let p = self.prefixes[i].as_str().as_bytes();
            if bytes_start_with(u, p) {
                assert(starts_with_bytes(encode_utf8(url@), encode_utf8(self@[i as int])));
                return true;
            }
            i = i + 1;
        }
        false
    }
}

} // verus!
