use vstd::prelude::*;
use crate::document::converted;
use crate::engine::{StateModel, closed, direct_tag, is_root, on_text, run, step, translation};
use crate::event::EventModel;

verus! {

/// Converting depends on the source bytes alone: two copies of one source
/// give the same document, byte for byte, or the same error.
pub proof fn lemma_conversion_depends_on_source_alone(a: Seq<u8>, b: Seq<u8>)
    requires
        a == b,
    ensures
        converted(a) == converted(b),
{
}

/// A tag name that is written as soon as the source text is read.
pub open spec fn is_direct_name(n: Seq<char>) -> bool {
    n == "IMDB"@ || n == "GENRE"@ || n == "TITLE"@ || n == "SUBTITLE"@ || n == "SEASON"@
        || n == "EPISODE"@ || n == "ORIGINALTITLE"@ || n == "YEAR"@ || n == "TAGLINE"@
        || n == "RUNTIME"@ || n == "MPAA"@ || n == "CERTIFICATION"@ || n == "TMDB"@
        || n == "COUNTRY"@ || n == "PREMIERED"@ || n == "STUDIO"@
}

pub open spec fn closes_root(e: EventModel) -> bool {
    match e {
        EventModel::End(name) => is_root(name),
        _ => false,
    }
}

/// What is written for the first events of a source stays, unchanged, at the
/// front of what is written for the whole source.
pub proof fn lemma_translation_prefix(evs: Seq<EventModel>, k: int)
    requires
        0 <= k <= evs.len(),
    ensures
        translation(evs.take(k)).is_prefix_of(translation(evs)),
    decreases evs.len(),
{
    if k == evs.len() {
        assert(evs.take(k) =~= evs);
    } else {
        lemma_translation_prefix(evs.drop_last(), k);
        assert(evs.drop_last().take(k) =~= evs.take(k));
    }
}

/// An event that does not close the root writes only direct tags.
pub proof fn lemma_step_writes_direct_tags(s: StateModel, e: EventModel)
    requires
        !closes_root(e),
    ensures
        forall|j: int| 0 <= j < step(s, e).1.len() ==> is_direct_name(#[trigger] step(s, e).1[j].0),
{
    match e {
        EventModel::Text(t) => {
            let written = on_text(s, t).1;
            assert forall|j: int| 0 <= j < written.len() implies is_direct_name(#[trigger] written[j].0) by {
                let cur = s.current->Some_0;
                if let Some(tag) = direct_tag(cur) {
                    assert(is_direct_name(tag));
                }
            }
        },
        _ => {},
    }
}

/// Deferred fields never come before a directly copied field: until the root
/// first closes, every entry written is a direct tag, and those entries lead
/// the document in source order.
pub proof fn lemma_direct_tags_lead(evs: Seq<EventModel>, k: int)
    requires
        0 <= k <= evs.len(),
        forall|i: int| 0 <= i < k ==> !closes_root(#[trigger] evs[i]),
    ensures
        translation(evs.take(k)).is_prefix_of(translation(evs)),
        forall|j: int|
            0 <= j < translation(evs.take(k)).len() ==> is_direct_name(#[trigger] translation(evs.take(k))[j].0),
    decreases k,
{
    lemma_translation_prefix(evs, k);
    if k > 0 {
        lemma_direct_tags_lead(evs, k - 1);
        let pre = evs.take(k);
        assert(pre.drop_last() =~= evs.take(k - 1));
        assert(pre.last() == evs[k - 1]);
        let s = run(evs.take(k - 1)).0;
        lemma_step_writes_direct_tags(s, evs[k - 1]);
        let before = translation(evs.take(k - 1));
        let written = step(s, evs[k - 1]).1;
        assert(translation(pre) == before + written);
        assert forall|j: int| 0 <= j < translation(pre).len() implies is_direct_name(#[trigger] translation(pre)[j].0) by {
            if j >= before.len() {
                assert(translation(pre)[j] == written[j - before.len()]);
            }
        }
    }
}

pub open spec fn opens_actor(e: EventModel) -> bool {
    match e {
        EventModel::Start(name, _) => name == "actor"@,
        _ => false,
    }
}

/// Without an `actor` element no actor is collected.
proof fn lemma_no_actor_state(evs: Seq<EventModel>)
    requires
        forall|i: int| 0 <= i < evs.len() ==> !opens_actor(#[trigger] evs[i]),
    ensures
        !run(evs).0.inside_actor,
        run(evs).0.actors.len() == 0,
        run(evs).0.actor_name.len() == 0,
        forall|j: int| 0 <= j < translation(evs).len() ==> (#[trigger] translation(evs)[j]).0 != "Actor"@,
    decreases evs.len(),
{
    if evs.len() > 0 {
        let rest = evs.drop_last();
        assert forall|i: int| 0 <= i < rest.len() implies !opens_actor(#[trigger] rest[i]) by {
            assert(rest[i] == evs[i]);
        }
        lemma_no_actor_state(rest);
        assert(!opens_actor(evs[evs.len() - 1]));
        reveal_strlit("Actor");
        reveal_strlit("IMDB");
        reveal_strlit("DESCRIPTION");
        reveal_strlit("SUMMARY");
        reveal_strlit("Collection Name");
        reveal_strlit("Collection Overview");
        reveal_strlit("Director");
        reveal_strlit("WRITER");
        reveal_strlit("GENRE");
        reveal_strlit("TITLE");
        reveal_strlit("SUBTITLE");
        reveal_strlit("SEASON");
        reveal_strlit("EPISODE");
        reveal_strlit("ORIGINALTITLE");
        reveal_strlit("YEAR");
        reveal_strlit("TAGLINE");
        reveal_strlit("RUNTIME");
        reveal_strlit("MPAA");
        reveal_strlit("CERTIFICATION");
        reveal_strlit("TMDB");
        reveal_strlit("COUNTRY");
        reveal_strlit("PREMIERED");
        reveal_strlit("STUDIO");
        let s = run(rest).0;
        let before = translation(rest);
        let written = step(s, evs.last()).1;
        assert(translation(evs) == before + written);
        // every other tag name differs from `Actor` in its length or its second letter
        assert forall|j: int| 0 <= j < written.len() implies (#[trigger] written[j]).0 != "Actor"@ by {
            let n = written[j].0;
            assert(n.len() != 5 || n[1] != 'c');
        }
        assert forall|j: int| 0 <= j < translation(evs).len() implies (#[trigger] translation(evs)[j]).0 != "Actor"@ by {
            if j >= before.len() {
                assert(translation(evs)[j] == written[j - before.len()]);
            } else {
                assert(translation(evs)[j] == before[j]);
            }
        }
    }
}

/// A document with no `actor` element gets no `Actor` entry at all.
pub proof fn lemma_no_actor_no_actor_tag(evs: Seq<EventModel>)
    requires
        forall|i: int| 0 <= i < evs.len() ==> !opens_actor(#[trigger] evs[i]),
    ensures
        forall|j: int| 0 <= j < translation(evs).len() ==> (#[trigger] translation(evs)[j]).0 != "Actor"@,
{
    lemma_no_actor_state(evs);
}

/// A `name` read outside an `actor` element (in a `set`, say) is never taken
/// for an actor's name: text read while no actor is open leaves the actors
/// collected so far, and the one being read, as they were.
pub proof fn lemma_name_outside_actor_is_not_an_actor(s: StateModel, t: Seq<char>)
    requires
        !s.inside_actor,
    ensures
        step(s, EventModel::Text(t)).0.actors == s.actors,
        step(s, EventModel::Text(t)).0.actor_name == s.actor_name,
{
}

/// Closing an `actor` element appends the name read inside it, exactly, and
/// nothing else.
pub proof fn lemma_actor_close_appends_its_name(s: StateModel)
    requires
        s.actor_name.len() > 0,
    ensures
        closed(s, "actor"@).0.actors == s.actors.push(s.actor_name),
        closed(s, "actor"@).0.actor_name.len() == 0,
{
}

} // verus!
