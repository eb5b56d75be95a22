//! Properties that relate the pipeline's stages to each other.

use vstd::prelude::*;
use crate::decision_engine::{
    cascade, cascade_reason, is_metadata_score, DEFAULT_GRAY_ZONE_LENGTH, DEFAULT_MERGE_THRESHOLD,
    DEFAULT_NEW_THRESHOLD,
};
use crate::fallback_strategy::fallback_decision;
use crate::feature_extractor::{content_of, features_of, has_strong_heading};
use crate::reading_unit_builder::{built_units, flushed, run, step, BuildState, UnitView};
use crate::scoring_engine::{default_weights, score_of};
use crate::types::{ContentFeature, HeadingStrength, MergeDecision, ScoreWeights, Segment, SegmentFeatures, SegmentScore};

verus! {

/// The decision is a function of its inputs: two calls that agree on the
/// total and content scores, the features and the segment length give the
/// same decision, level and reason.
pub proof fn decision_is_deterministic(
    merge_threshold: i64,
    new_threshold: i64,
    gray_zone_length: usize,
    score1: SegmentScore,
    score2: SegmentScore,
    f1: SegmentFeatures,
    f2: SegmentFeatures,
    length1: usize,
    length2: usize,
)
    requires
        score1.total_score == score2.total_score,
        score1.content_score == score2.content_score,
        f1 == f2,
        length1 == length2,
    ensures
        cascade(merge_threshold, new_threshold, gray_zone_length, score1, f1, length1) == cascade(
            merge_threshold,
            new_threshold,
            gray_zone_length,
            score2,
            f2,
            length2,
        ),
        cascade_reason(merge_threshold, new_threshold, gray_zone_length, score1, f1, length1)
            == cascade_reason(merge_threshold, new_threshold, gray_zone_length, score2, f2, length2),
{
}

/// A content score of 5.0 or more always merges, whatever the other scores.
pub proof fn metadata_always_merges(
    merge_threshold: i64,
    new_threshold: i64,
    gray_zone_length: usize,
    score: SegmentScore,
    f: SegmentFeatures,
    length: usize,
)
    requires
        score.content_score matches Some(c) && c >= 50,
    ensures
        cascade(merge_threshold, new_threshold, gray_zone_length, score, f, length) == (
        MergeDecision::Merge,
        None::<u32>,
        ),
{
}

/// A first-level TOC entry whose heading is body content opens a chapter,
/// however high its total, when its score was computed from its features.
pub proof fn toc_chapter_opens_chapter(
    merge_threshold: i64,
    new_threshold: i64,
    gray_zone_length: usize,
    f: SegmentFeatures,
    w: ScoreWeights,
    length: usize,
)
    requires
        f.toc_feature == Some(1u32),
        f.content_feature == ContentFeature::Body,
    ensures
        cascade(merge_threshold, new_threshold, gray_zone_length, score_of(f, w), f, length) == (
        MergeDecision::CreateNew,
        Some(1u32),
        ),
{
}

/// In the gray zone of the default thresholds a segment of 799 characters
/// merges and one of 800 opens a unit: the length test is strict.
pub proof fn gray_zone_boundary(score: SegmentScore, f: SegmentFeatures)
    requires
        !is_metadata_score(score),
        f.toc_feature != Some(1u32) || f.content_feature != ContentFeature::Body,
        f.toc_feature != Some(2u32),
        -300 < score.total_score < 300,
    ensures
        cascade(DEFAULT_MERGE_THRESHOLD, DEFAULT_NEW_THRESHOLD, DEFAULT_GRAY_ZONE_LENGTH, score, f, 799).0 == MergeDecision::Merge,
        cascade(DEFAULT_MERGE_THRESHOLD, DEFAULT_NEW_THRESHOLD, DEFAULT_GRAY_ZONE_LENGTH, score, f, 800).0 == MergeDecision::CreateNew,
{
}

/// A segment whose heading matches the chapter pattern opens a unit both in
/// the full pipeline (default weights and thresholds) and in the fallback,
/// when its heading names no metadata and it is not shorter than the gray
/// zone.
pub proof fn fallback_agrees_on_chapter_headings(s: Segment, prev: Option<Segment>)
    requires
        has_strong_heading(s),
        content_of(s) == ContentFeature::Body,
        s.length >= DEFAULT_GRAY_ZONE_LENGTH,
    ensures
        cascade(
            DEFAULT_MERGE_THRESHOLD,
            DEFAULT_NEW_THRESHOLD,
            DEFAULT_GRAY_ZONE_LENGTH,
            score_of(features_of(s, prev), default_weights()),
            features_of(s, prev),
            s.length,
        ).0 == MergeDecision::CreateNew,
        fallback_decision(DEFAULT_GRAY_ZONE_LENGTH, s) == MergeDecision::CreateNew,
{
    let f = features_of(s, prev);
    assert(f.heading_feature == HeadingStrength::Strong);
    let sc = score_of(f, default_weights());
    assert(sc.total_score <= 180);
}


/// Three segments each decided as a new chapter give three top-level units
/// of one segment each, with no parent.
pub proof fn three_new_chapters(
    book_id: i32,
    first_id: nat,
    segs: Seq<Segment>,
    decs: Seq<(MergeDecision, String, Option<u32>)>,
)
    requires
        segs.len() == 3,
        decs.len() == 3,
        forall|i: int| 0 <= i < 3 ==> (#[trigger] decs[i]).0 == MergeDecision::CreateNew && decs[i].2 == Some(1u32),
    ensures
        ({
            let us = built_units(book_id, first_id, segs, decs);
            &&& us.len() == 3
            &&& forall|i: int| 0 <= i < 3 ==> {
                &&& (#[trigger] us[i]).level == 1
                &&& us[i].parent_id is None
                &&& us[i].segment_ids == seq![segs[i].id@]
            }
        }),
{
    reveal_with_fuel(run, 4);
    assert(decs[0].0 == MergeDecision::CreateNew && decs[0].2 == Some(1u32));
    assert(decs[1].0 == MergeDecision::CreateNew && decs[1].2 == Some(1u32));
    assert(decs[2].0 == MergeDecision::CreateNew && decs[2].2 == Some(1u32));
}

/// A new chapter followed by two merges gives one unit holding the three
/// segments, ending where the third one ends.
pub proof fn chapter_then_merges(
    book_id: i32,
    first_id: nat,
    segs: Seq<Segment>,
    decs: Seq<(MergeDecision, String, Option<u32>)>,
)
    requires
        segs.len() == 3,
        decs.len() == 3,
        decs[0].0 == MergeDecision::CreateNew,
        decs[0].2 == Some(1u32),
        decs[1].0 == MergeDecision::Merge,
        decs[2].0 == MergeDecision::Merge,
    ensures
        ({
            let us = built_units(book_id, first_id, segs, decs);
            &&& us.len() == 1
            &&& us[0].segment_ids == seq![segs[0].id@, segs[1].id@, segs[2].id@]
            &&& us[0].end_block_id == segs[2].end_block_id
        }),
{
    reveal_with_fuel(run, 4);
}

/// A new chapter followed by two new sections gives three units, both
/// sections having the chapter as parent.
pub proof fn chapter_then_sections(
    book_id: i32,
    first_id: nat,
    segs: Seq<Segment>,
    decs: Seq<(MergeDecision, String, Option<u32>)>,
)
    requires
        segs.len() == 3,
        decs.len() == 3,
        decs[0].0 == MergeDecision::CreateNew,
        decs[0].2 == Some(1u32),
        decs[1].0 == MergeDecision::CreateNew,
        decs[1].2 == Some(2u32),
        decs[2].0 == MergeDecision::CreateNew,
        decs[2].2 == Some(2u32),
    ensures
        ({
            let us = built_units(book_id, first_id, segs, decs);
            &&& us.len() == 3
            &&& us[0].level == 1 && us[0].parent_id is None
            &&& us[1].level == 2 && us[1].parent_id == Some(us[0].id)
            &&& us[2].level == 2 && us[2].parent_id == Some(us[0].id)
        }),
{
    reveal_with_fuel(run, 4);
}


/// Every unit with a parent comes after a chapter (level 1) with that id.
pub open spec fn parents_precede(us: Seq<UnitView>) -> bool {
    forall|j: int|
        0 <= j < us.len() && (#[trigger] us[j]).parent_id is Some ==> exists|i: int|
            0 <= i < j && us[i].level == 1 && us[i].id == us[j].parent_id->0
}

/// Chapters (level 1) have no parent.
pub open spec fn chapters_have_no_parent(us: Seq<UnitView>) -> bool {
    forall|j: int| 0 <= j < us.len() && (#[trigger] us[j]).level == 1 ==> us[j].parent_id is None
}

/// The segment ids of `us`, unit after unit.
pub open spec fn all_segment_ids(us: Seq<UnitView>) -> Seq<Seq<char>>
    decreases us.len(),
{
    if us.len() == 0 {
        Seq::empty()
    } else {
        all_segment_ids(us.drop_last()) + us.last().segment_ids
    }
}

pub open spec fn segment_ids_of(segs: Seq<Segment>) -> Seq<Seq<char>> {
    segs.map_values(|s: Segment| s.id@)
}

/// Each unit holds at least one segment and ends where its last segment ends.
pub open spec fn unit_ends_match(us: Seq<UnitView>, segs: Seq<Segment>) -> bool {
    forall|j: int|
        0 <= j < us.len() ==> {
            &&& (#[trigger] us[j]).segment_ids.len() > 0
            &&& us[j].end_block_id == segs[all_segment_ids(us.take(j + 1)).len() - 1].end_block_id
        }
}

spec fn run_invariant(st: BuildState, segs: Seq<Segment>, k: int) -> bool {
    let us = flushed(st);
    &&& unit_ends_match(us, segs)
    &&& parents_precede(us)
    &&& chapters_have_no_parent(us)
    &&& (st.last_chapter matches Some(p) ==> exists|i: int|
        0 <= i < us.len() && us[i].level == 1 && us[i].id == p)
    &&& (st.open is None ==> st.done.len() == 0 && k == 0)
    &&& all_segment_ids(us) == segment_ids_of(segs.take(k))
}

proof fn lemma_run_invariant(
    book_id: i32,
    first_id: nat,
    segs: Seq<Segment>,
    decs: Seq<(MergeDecision, String, Option<u32>)>,
    k: nat,
)
    requires
        k <= segs.len(),
        segs.len() <= decs.len(),
    ensures
        run_invariant(run(book_id, first_id, segs, decs, k), segs, k as int),
    decreases k,
{
    if k == 0 {
        assert(segment_ids_of(segs.take(0)) == Seq::<Seq<char>>::empty());
        return;
    }
    let j = (k - 1) as nat;
    lemma_run_invariant(book_id, first_id, segs, decs, j);
    let st = run(book_id, first_id, segs, decs, j);
    let s = segs[j as int];
    let total = segs.len() as int;
    let nx = step(book_id, st, s, decs[j as int].0, decs[j as int].2, j as int, total);
    assert(nx == run(book_id, first_id, segs, decs, k));
    let us = flushed(st);
    let ns = flushed(nx);
    assert(segment_ids_of(segs.take(k as int)) == segment_ids_of(segs.take(j as int)).push(s.id@));
    match decs[j as int].0 {
        MergeDecision::Merge => {
            match st.open {
                Some(o) => {
                    assert(us == st.done.push(o));
                    assert(ns.len() == us.len());
                    assert(ns.drop_last() == us.drop_last());
                    assert(all_segment_ids(ns) == all_segment_ids(us).push(s.id@));
                    assert forall|m: int| 0 <= m < ns.len() implies ns[m].level == us[m].level
                        && ns[m].id == us[m].id && ns[m].parent_id == us[m].parent_id by {}
                    assert forall|m: int|
                        0 <= m < ns.len() && (#[trigger] ns[m]).parent_id is Some implies exists|i: int|
                        0 <= i < m && ns[i].level == 1 && ns[i].id == ns[m].parent_id->0 by {
                        assert(us[m].parent_id is Some);
                        let i = choose|i: int| 0 <= i < m && us[i].level == 1 && us[i].id == us[m].parent_id->0;
                        assert(ns[i].level == 1);
                    }
                    if let Some(p) = nx.last_chapter {
                        let i = choose|i: int| 0 <= i < us.len() && us[i].level == 1 && us[i].id == p;
                        assert(ns[i].level == 1 && ns[i].id == p);
                    }
                    assert(parents_precede(ns));
                    assert(chapters_have_no_parent(ns));
                    assert(all_segment_ids(ns) == segment_ids_of(segs.take(k as int)));
                    assert forall|m: int| 0 <= m < ns.len() implies {
                        &&& (#[trigger] ns[m]).segment_ids.len() > 0
                        &&& ns[m].end_block_id == segs[all_segment_ids(ns.take(m + 1)).len() - 1].end_block_id
                    } by {
                        if m + 1 < ns.len() {
                            assert(ns.take(m + 1) == us.take(m + 1));
                            assert(ns[m] == us[m]);
                        } else {
                            assert(ns.take(m + 1) == ns);
                        }
                    }
                },
                None => {
                    assert(ns == seq![nx.open->0]);
                    assert(ns.drop_last() == Seq::<UnitView>::empty());
                    assert(all_segment_ids(ns) == seq![s.id@]);
                    assert(segment_ids_of(segs.take(0)) == Seq::<Seq<char>>::empty());
                    assert(ns.take(1) == ns);
                    assert(parents_precede(ns));
                    assert(chapters_have_no_parent(ns));
                    assert(all_segment_ids(ns) == segment_ids_of(segs.take(k as int)));
                },
            }
        },
        MergeDecision::CreateNew => {
            let u = nx.open->0;
            assert(nx.done == us);
            assert(ns == us.push(u));
            assert(ns.drop_last() == us);
            assert(all_segment_ids(ns) == all_segment_ids(us) + seq![s.id@]);
            assert forall|m: int|
                0 <= m < ns.len() && (#[trigger] ns[m]).parent_id is Some implies exists|i: int|
                0 <= i < m && ns[i].level == 1 && ns[i].id == ns[m].parent_id->0 by {
                if m < us.len() {
                    assert(ns[m] == us[m]);
                    let i = choose|i: int| 0 <= i < m && us[i].level == 1 && us[i].id == us[m].parent_id->0;
                    assert(ns[i] == us[i]);
                } else {
                    let p = st.last_chapter->0;
                    let i = choose|i: int| 0 <= i < us.len() && us[i].level == 1 && us[i].id == p;
                    assert(ns[i] == us[i]);
                }
            }
            assert forall|m: int| 0 <= m < ns.len() && (#[trigger] ns[m]).level == 1 implies ns[m].parent_id is None by {
                if m < us.len() {
                    assert(ns[m] == us[m]);
                }
            }
            assert(parents_precede(ns));
            assert(chapters_have_no_parent(ns));
            assert(all_segment_ids(ns) == segment_ids_of(segs.take(k as int)));
            assert forall|m: int| 0 <= m < ns.len() implies {
                &&& (#[trigger] ns[m]).segment_ids.len() > 0
                &&& ns[m].end_block_id == segs[all_segment_ids(ns.take(m + 1)).len() - 1].end_block_id
            } by {
                if m < us.len() {
                    assert(ns.take(m + 1) == us.take(m + 1));
                    assert(ns[m] == us[m]);
                } else {
                    assert(ns.take(m + 1) == ns);
                }
            }
            if let Some(p) = nx.last_chapter {
                if p != u.id {
                    let i = choose|i: int| 0 <= i < us.len() && us[i].level == 1 && us[i].id == p;
                    assert(ns[i] == us[i]);
                } else {
                    assert(ns[us.len() as int] == u);
                }
            }
        },
    }
}

/// The units that `build` returns form a well-formed two-level tree over the
/// segments: every segment id appears once, in source order; each unit ends
/// where its last segment ends; chapters have no parent; a unit's parent is a
/// chapter that comes before it.
pub proof fn built_units_are_well_formed(
    book_id: i32,
    first_id: nat,
    segs: Seq<Segment>,
    decs: Seq<(MergeDecision, String, Option<u32>)>,
)
    requires
        segs.len() == decs.len(),
    ensures
        ({
            let us = built_units(book_id, first_id, segs, decs);
            &&& all_segment_ids(us) == segment_ids_of(segs)
            &&& unit_ends_match(us, segs)
            &&& chapters_have_no_parent(us)
            &&& parents_precede(us)
        }),
{
    lemma_run_invariant(book_id, first_id, segs, decs, segs.len());
    assert(segs.take(segs.len() as int) == segs);
}

} // verus!
