use vstd::prelude::*;

verus! {

/// The configuration one maintenance run is built from, read once when a
/// start request is accepted.
///
/// The service list doubles as the restart list, in the same order. An
/// ownership fixup happens only when both a target user and a target group
/// are configured.
#[derive(Debug)]
pub struct UpdateConfig {
    pub services_to_stop: Vec<String>,
    pub paths_to_remove: Vec<String>,
    pub target_user: Option<String>,
    pub target_group: Option<String>,
    pub target_paths: Vec<String>,
}

/// `parts` joined back into one string with a single `';'` between
/// neighbouring segments.
pub open spec fn joined(parts: Seq<Seq<char>>) -> Seq<char>
    decreases parts.len(),
{
    if parts.len() == 0 {
        Seq::empty()
    } else if parts.len() == 1 {
        parts[0]
    } else {
        parts[0] + seq![';'] + joined(parts.drop_first())
    }
}

/// No segment contains the separator.
pub open spec fn semi_free(parts: Seq<Seq<char>>) -> bool {
    forall|k: int| 0 <= k < parts.len() ==> !(#[trigger] parts[k]).contains(';')
}

/// Appending one more segment appends one separator and the segment to the
/// join.
proof fn lemma_joined_push(parts: Seq<Seq<char>>, y: Seq<char>)
    requires
        parts.len() >= 1,
    ensures
        joined(parts.push(y)) == joined(parts) + seq![';'] + y,
    decreases parts.len(),
{
    if parts.len() == 1 {
        let two = parts.push(y);
        assert(two.drop_first() =~= seq![y]);
        assert(joined(seq![y]) == y);
        assert(joined(two) == two[0] + seq![';'] + joined(two.drop_first()));
        assert(two[0] == parts[0]);
    } else {
        assert(parts.push(y).drop_first() =~= parts.drop_first().push(y));
        lemma_joined_push(parts.drop_first(), y);
        assert(joined(parts.push(y)) =~= joined(parts) + seq![';'] + y);
    }
}

/// Split `s` at every `';'`: the result is the unique list of
/// separator-free segments whose join with `';'` gives `s` back. An input
/// without a separator is one segment; each extra separator adds a segment,
/// so a trailing separator ends the list with an empty one.
pub fn split_list(s: &str) -> (r: Vec<String>)
    ensures
        r.deep_view().len() >= 1,
        joined(r.deep_view()) == s@,
        semi_free(r.deep_view()),
{
    let n = s.unicode_len();
    let mut r: Vec<String> = Vec::new();
    let mut seg_start: usize = 0;
    let mut i: usize = 0;
    while i < n
        invariant
            n == s@.len(),
            seg_start <= i <= n,
            joined(r.deep_view().push(s@.subrange(seg_start as int, i as int))) == s@.subrange(
                0,
                i as int,
            ),
            semi_free(r.deep_view().push(s@.subrange(seg_start as int, i as int))),
        decreases n - i,
    {
        let c = s.get_char(i);
        if c == ';' {
            let ghost prev = r.deep_view();
            let ghost seg_view = s@.subrange(seg_start as int, i as int);
            let seg = s.substring_char(seg_start, i).to_owned();
            r.push(seg);
            proof {
                assert(r.deep_view() =~= prev.push(seg_view));
                lemma_joined_push(prev.push(seg_view), s@.subrange(i as int + 1, i as int + 1));
                assert(s@.subrange(i as int + 1, i as int + 1) =~= Seq::<char>::empty());
                assert(joined(prev.push(seg_view)) + seq![';'] + Seq::<char>::empty() =~= s@
                    .subrange(0, i as int + 1));
                assert(semi_free(r.deep_view().push(s@.subrange(i as int + 1, i as int + 1))));
            }
            seg_start = i + 1;
        } else {
            proof {
                let prev = r.deep_view();
                let oldseg = s@.subrange(seg_start as int, i as int);
                let newseg = s@.subrange(seg_start as int, i as int + 1);
                assert(newseg =~= oldseg.push(s@[i as int]));
                lemma_joined_push_last(prev, oldseg, s@[i as int]);
                assert(s@.subrange(0, i as int + 1) =~= s@.subrange(0, i as int).push(
                    s@[i as int],
                ));
                assert(prev.push(oldseg)[prev.len() as int] == oldseg);
                assert(!newseg.contains(';')) by {
                    assert(forall|j: int|
                        0 <= j < oldseg.len() ==> #[trigger] newseg[j] == oldseg[j]);
                    assert(newseg[newseg.len() - 1] == s@[i as int]);
                }
                assert forall|k: int| 0 <= k < prev.push(newseg).len() implies !(#[trigger] prev
                    .push(newseg)[k]).contains(';') by {
                    if k < prev.len() {
                        assert(prev.push(newseg)[k] == prev[k]);
                        assert(prev.push(oldseg)[k] == prev[k]);
                    } else {
                        assert(prev.push(newseg)[k] == newseg);
                    }
                }
            }
        }
        i = i + 1;
    }
    let ghost prev = r.deep_view();
    let ghost seg_view = s@.subrange(seg_start as int, n as int);
    let last = s.substring_char(seg_start, n).to_owned();
    r.push(last);
    proof {
        assert(r.deep_view() =~= prev.push(seg_view));
        assert(s@.subrange(0, n as int) =~= s@);
    }
    r
}

/// Extending the last segment by one non-separator character extends the
/// join by that character.
proof fn lemma_joined_push_last(parts: Seq<Seq<char>>, x: Seq<char>, c: char)
    ensures
        joined(parts.push(x.push(c))) == joined(parts.push(x)).push(c),
    decreases parts.len(),
{
    if parts.len() == 0 {
        assert(joined(parts.push(x.push(c))) == x.push(c));
        assert(joined(parts.push(x)) == x);
    } else {
        lemma_joined_push(parts, x.push(c));
        lemma_joined_push(parts, x);
        assert(joined(parts) + seq![';'] + x.push(c) =~= (joined(parts) + seq![';'] + x).push(c));
    }
}

} // verus!
