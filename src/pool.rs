//! The mirrors that downloads go to, best first, and the one in use.
use vstd::prelude::*;

verus! {

/// No mirror matched the selection.
#[derive(Debug, Clone, Copy, PartialEq, Eq, Structural)]
pub enum ProviderSelectionError {
    NoProviders,
}

/// The mirror base URIs, best first, and the index of the one in use.
pub struct ProviderPool {
    pub uris: Vec<String>,
    pub current: usize,
}

pub open spec fn uri_views(uris: Seq<String>) -> Seq<Seq<char>> {
    uris.map_values(|u: String| u@)
}

/// Where rotation away from `failed` lands when it starts at `i`: the first
/// index from `i` on whose URI differs from `failed`, or the last index when
/// there is none.
pub open spec fn rotation_target(uris: Seq<Seq<char>>, failed: Seq<char>, i: int) -> int
    decreases uris.len() - i,
{
    if i >= uris.len() - 1 {
        i
    } else if uris[i] != failed {
        i
    } else {
        rotation_target(uris, failed, i + 1)
    }
}

/// Whether `s` reads as a URI.
pub uninterp spec fn is_uri(s: Seq<char>) -> bool;

/// Relies on `http::Uri`'s `FromStr`: whether the text parses as a URI. The
/// answer depends on the text alone.
#[verifier::external_body]
fn parses_as_uri(s: &str) -> (r: bool)
    ensures
        r == is_uri(s@),
{
    s.parse::<http::Uri>().is_ok()
}

/// A mirror base URI that paths can be appended to: it ends with `/`.
pub open spec fn base_uri(s: Seq<char>) -> Seq<char> {
    if s.len() > 0 && s.last() == '/' {
        s
    } else {
        s + "/"@
    }
}

/// The base URIs of the mirrors whose flag is set, in their order.
pub open spec fn selected_mirrors(mirrors: Seq<Seq<char>>, flags: Seq<bool>) -> Seq<Seq<char>>
    decreases mirrors.len(),
{
    if mirrors.len() == 0 || flags.len() == 0 {
        Seq::empty()
    } else {
        let rest = selected_mirrors(mirrors.drop_last(), flags.drop_last());
        if flags.last() {
            rest.push(base_uri(mirrors.last()))
        } else {
            rest
        }
    }
}

fn base_uri_exec(s: &String) -> (r: String)
    ensures
        r@ == base_uri(s@),
{
    let n = s.as_str().unicode_len();
    let mut r = s.clone();
    if n == 0 || s.as_str().get_char(n - 1) != '/' {
        r.append("/");
    }
    r
}

/// The mirrors whose flag in `parsed` is set, each made to end with `/`.
pub fn select_providers(mirrors: &Vec<String>, parsed: &Vec<bool>) -> (r: Vec<String>)
    requires
        mirrors@.len() == parsed@.len(),
    ensures
        uri_views(r@) == selected_mirrors(uri_views(mirrors@), parsed@),
{
    let mut r: Vec<String> = Vec::new();
    let mut i: usize = 0;
    while i < mirrors.len()
        invariant
            i <= mirrors@.len() == parsed@.len(),
            uri_views(r@) == selected_mirrors(
                uri_views(mirrors@).take(i as int),
                parsed@.take(i as int),
            ),
        decreases mirrors@.len() - i,
    {
        let ghost before = r@;
        if parsed[i] {
            r.push(base_uri_exec(&mirrors[i]));
            assert(uri_views(r@) =~= uri_views(before).push(base_uri(mirrors@[i as int]@)));
        }
        assert(uri_views(mirrors@).take(i + 1).drop_last() =~= uri_views(mirrors@).take(i as int));
        assert(parsed@.take(i + 1).drop_last() =~= parsed@.take(i as int));
        i = i + 1;
    }
    assert(uri_views(mirrors@).take(i as int) =~= uri_views(mirrors@));
    assert(parsed@.take(i as int) =~= parsed@);
    r
}

/// The configured mirrors that read as URIs, in their order, each made to
/// end with `/`.
pub fn predefined_providers(mirrors: &Vec<String>) -> (r: Vec<String>)
    ensures
        exists|flags: Seq<bool>|
            flags.len() == mirrors@.len() && (forall|i: int|
                0 <= i < flags.len() ==> #[trigger] flags[i] == is_uri(mirrors@[i]@))
                && uri_views(r@) == selected_mirrors(uri_views(mirrors@), flags),
{
    let mut parsed: Vec<bool> = Vec::new();
    let mut i: usize = 0;
    while i < mirrors.len()
        invariant
            i <= mirrors@.len(),
            parsed@.len() == i,
            forall|j: int| 0 <= j < i ==> #[trigger] parsed@[j] == is_uri(mirrors@[j]@),
        decreases mirrors@.len() - i,
    {
        parsed.push(parses_as_uri(mirrors[i].as_str()));
        i = i + 1;
    }
    select_providers(mirrors, &parsed)
}

impl ProviderPool {
    pub open spec fn wf(&self) -> bool {
        self.uris.len() > 0 && self.current < self.uris.len()
    }

    pub open spec fn view_uris(&self) -> Seq<Seq<char>> {
        uri_views(self.uris@)
    }

    /// A pool over `uris`, starting at the first; an error when there are none.
    pub fn new(uris: Vec<String>) -> (r: Result<ProviderPool, ProviderSelectionError>)
        ensures
            uris.len() == 0 <==> r is Err,
            r matches Ok(p) ==> p.wf() && p.current == 0 && p.uris@ == uris@,
    {
        if uris.len() == 0 {
            Err(ProviderSelectionError::NoProviders)
        } else {
            Ok(ProviderPool { uris, current: 0 })
        }
    }

    /// The mirror in use.
    pub fn primary(&self) -> (r: &String)
        requires
            self.wf(),
        ensures
            r == self.uris@[self.current as int],
    {
        &self.uris[self.current]
    }

    /// Moves past the mirror `failed` and every mirror after it with the same
    /// URI, stopping at the last mirror.
    pub fn rotate_on_failure(&mut self, failed: &String)
        requires
            old(self).wf(),
        ensures
            final(self).wf(),
            final(self).uris@ == old(self).uris@,
            final(self).current == rotation_target(
                old(self).view_uris(),
                failed@,
                old(self).current as int,
            ),
    {
        let n = self.uris.len();
        let ghost v = self.view_uris();
        let ghost start = self.current as int;
        let mut i = self.current;
        assert(rotation_target(v, failed@, start) == rotation_target(v, failed@, i as int));
        while i + 1 < n && self.uris[i] == *failed
            invariant
                n == self.uris.len(),
                self.wf(),
                v == self.view_uris(),
                start <= i < n,
                rotation_target(v, failed@, start) == rotation_target(v, failed@, i as int),
            decreases n - i,
        {
            assert(v[i as int] == self.uris@[i as int]@);
            i = i + 1;
        }
        proof {
            if i + 1 < n {
                assert(v[i as int] == self.uris@[i as int]@);
            }
        }
        self.current = i;
    }
}

} // verus!
