//! Folds the ordered (segment, decision) stream into a two-level tree of
//! reading units.

use vstd::prelude::*;
use crate::feature_extractor::{classify_heading_text, content_class, heading_text};
use crate::text::{int_text, push_int};
use crate::types::{ContentFeature, ContentType, MergeDecision, ReadingUnit, Segment};

verus! {

/// A reading unit as the contracts see it.
pub struct UnitView {
    pub id: Seq<char>,
    pub book_id: i32,
    pub title: Seq<char>,
    pub level: u32,
    pub parent_id: Option<Seq<char>>,
    pub segment_ids: Seq<Seq<char>>,
    pub start_block_id: i32,
    pub end_block_id: i32,
    pub source: Seq<char>,
    pub content_type: Option<ContentType>,
    pub has_summary: bool,
}

pub open spec fn opt_text(s: Option<String>) -> Option<Seq<char>> {
    match s {
        Some(t) => Some(t@),
        None => None,
    }
}

pub open spec fn unit_view(u: ReadingUnit) -> UnitView {
    UnitView {
        id: u.id@,
        book_id: u.book_id,
        title: u.title@,
        level: u.level,
        parent_id: opt_text(u.parent_id),
        segment_ids: u.segment_ids@.map_values(|s: String| s@),
        start_block_id: u.start_block_id,
        end_block_id: u.end_block_id,
        source: u.source@,
        content_type: u.content_type,
        has_summary: u.summary is Some,
    }
}

pub open spec fn units_view(us: Seq<ReadingUnit>) -> Seq<UnitView> {
    us.map_values(|u: ReadingUnit| unit_view(u))
}

/// Content type of a unit opened by segment `index` of `total`: metadata
/// keywords in the heading, or a short segment in the first 5%, make
/// front matter; the last 5% is back matter; the rest is body.
pub open spec fn content_type_of(s: Segment, index: int, total: int) -> ContentType {
    if heading_text(s) matches Some(t) && content_class(t) != ContentFeature::Body {
        ContentType::Frontmatter
    } else if index < total / 20 && s.length < 500 {
        ContentType::Frontmatter
    } else if index >= (total * 19) / 20 {
        ContentType::Backmatter
    } else {
        ContentType::Body
    }
}

/// The id of the `counter`-th unit of book `book_id`.
pub open spec fn unit_id(book_id: i32, counter: nat) -> Seq<char> {
    "ru-"@ + int_text(book_id as int) + "-"@ + int_text(counter as int)
}

/// A unit's title: the seed segment's heading, else a placeholder naming its chapter.
pub open spec fn unit_title(s: Segment) -> Seq<char> {
    match heading_text(s) {
        Some(t) => t,
        None => "未命名章节 "@ + int_text(s.chapter_id as int),
    }
}

/// A unit's provenance: `toc` where the seed segment has a TOC level.
pub open spec fn unit_source(s: Segment) -> Seq<char> {
    if s.toc_level is Some {
        "toc"@
    } else {
        "heuristic"@
    }
}

/// A new unit seeded by segment `s`.
pub open spec fn new_unit(
    book_id: i32,
    counter: nat,
    s: Segment,
    level: u32,
    parent_id: Option<Seq<char>>,
    content_type: ContentType,
) -> UnitView {
    UnitView {
        id: unit_id(book_id, counter),
        book_id,
        title: unit_title(s),
        level,
        parent_id,
        segment_ids: seq![s.id@],
        start_block_id: s.start_block_id,
        end_block_id: s.end_block_id,
        source: unit_source(s),
        content_type: Some(content_type),
        has_summary: false,
    }
}

/// State of the fold: closed units, the open one, the last chapter's id,
/// and the next unit counter.
pub struct BuildState {
    pub done: Seq<UnitView>,
    pub open: Option<UnitView>,
    pub last_chapter: Option<Seq<char>>,
    pub next_id: nat,
}

/// One step of the fold over segment `i` of `total`.
pub open spec fn step(
    book_id: i32,
    st: BuildState,
    s: Segment,
    decision: MergeDecision,
    level: Option<u32>,
    i: int,
    total: int,
) -> BuildState {
    match decision {
        MergeDecision::Merge => match st.open {
            Some(u) => BuildState {
                open: Some(
                    UnitView {
                        segment_ids: u.segment_ids.push(s.id@),
                        end_block_id: s.end_block_id,
                        ..u
                    },
                ),
                ..st
            },
            None => BuildState {
                open: Some(new_unit(book_id, st.next_id, s, 1, None, content_type_of(s, i, total))),
                next_id: st.next_id + 1,
                ..st
            },
        },
        MergeDecision::CreateNew => {
            let lv = match level {
                Some(l) => l,
                None => 1u32,
            };
            let parent = if lv == 2 {
                st.last_chapter
            } else {
                None
            };
            let u = new_unit(book_id, st.next_id, s, lv, parent, content_type_of(s, i, total));
            BuildState {
                done: match st.open {
                    Some(o) => st.done.push(o),
                    None => st.done,
                },
                open: Some(u),
                last_chapter: if lv == 1 {
                    Some(u.id)
                } else {
                    st.last_chapter
                },
                next_id: st.next_id + 1,
            }
        },
    }
}

/// The fold over the first `k` segments.
pub open spec fn run(
    book_id: i32,
    first_id: nat,
    segs: Seq<Segment>,
    decs: Seq<(MergeDecision, String, Option<u32>)>,
    k: nat,
) -> BuildState
    decreases k,
{
    if k == 0 {
        BuildState { done: Seq::empty(), open: None, last_chapter: None, next_id: first_id }
    } else {
        step(
            book_id,
            run(book_id, first_id, segs, decs, (k - 1) as nat),
            segs[k - 1],
            decs[k - 1].0,
            decs[k - 1].2,
            k - 1,
            segs.len() as int,
        )
    }
}

/// The closed units followed by the open one, if any.
pub open spec fn flushed(st: BuildState) -> Seq<UnitView> {
    match st.open {
        Some(u) => st.done.push(u),
        None => st.done,
    }
}

/// The units built from the whole stream.
pub open spec fn built_units(
    book_id: i32,
    first_id: nat,
    segs: Seq<Segment>,
    decs: Seq<(MergeDecision, String, Option<u32>)>,
) -> Seq<UnitView> {
    flushed(run(book_id, first_id, segs, decs, segs.len()))
}

/// The unit being filled: none yet, or one that later segments may join.
enum OpenUnit {
    Empty,
    Open(ReadingUnit),
}

spec fn open_view(o: OpenUnit) -> Option<UnitView> {
    match o {
        OpenUnit::Empty => None,
        OpenUnit::Open(u) => Some(unit_view(u)),
    }
}

/// Builds the reading units of one book; owns the book's unit counter.
pub struct ReadingUnitBuilder {
    book_id: i32,
    next_unit_id: u32,
}

impl ReadingUnitBuilder {
    pub closed spec fn book_id_spec(&self) -> i32 {
        self.book_id
    }

    /// The counter the next unit's id will carry.
    pub closed spec fn next_unit_id_spec(&self) -> u32 {
        self.next_unit_id
    }

    /// A builder for book `book_id` whose first unit is numbered 1.
    pub fn new(book_id: i32) -> (r: Self)
        ensures
            r.book_id_spec() == book_id,
            r.next_unit_id_spec() == 1,
    {
        ReadingUnitBuilder { book_id, next_unit_id: 1 }
    }

    /// Folds `segments` and their `decisions` into reading units. Fails only
    /// when the two lists differ in length.
    pub fn build(
        &mut self,
        segments: &[Segment],
        decisions: &[(MergeDecision, String, Option<u32>)],
    ) -> (r: Result<Vec<ReadingUnit>, String>)
        requires
            old(self).next_unit_id_spec() + segments@.len() <= u32::MAX,
        ensures
            r is Err <==> segments@.len() != decisions@.len(),
            final(self).book_id_spec() == old(self).book_id_spec(),
            r is Err ==> final(self).next_unit_id_spec() == old(self).next_unit_id_spec(),
            r matches Ok(units) ==> units_view(units@) == built_units(
                old(self).book_id_spec(),
                old(self).next_unit_id_spec() as nat,
                segments@,
                decisions@,
            ),
            r is Ok ==> final(self).next_unit_id_spec() == run(
                old(self).book_id_spec(),
                old(self).next_unit_id_spec() as nat,
                segments@,
                decisions@,
                segments@.len(),
            ).next_id,
    {
        if segments.len() != decisions.len() {
            return Err(String::from_str("Segments 和 decisions 长度不匹配"));
        }
        let ghost book = self.book_id;
        let ghost first = self.next_unit_id as nat;
        let n = segments.len();
        let mut units: Vec<ReadingUnit> = Vec::new();
        let mut current = OpenUnit::Empty;
        let mut last_chapter: Option<String> = None;
        let mut i: usize = 0;
        while i < n
            invariant
                n == segments@.len() == decisions@.len(),
                i <= n,
                self.book_id == book,
                first + n <= u32::MAX,
                ({
                    let st = run(book, first, segments@, decisions@, i as nat);
                    &&& units_view(units@) == st.done
                    &&& open_view(current) == st.open
                    &&& opt_text(last_chapter) == st.last_chapter
                    &&& self.next_unit_id as nat == st.next_id
                    &&& st.next_id <= first + i
                }),
            decreases n - i,
        {
            let segment = &segments[i];
            let decision = &decisions[i];
            let ghost st = run(book, first, segments@, decisions@, i as nat);
            match decision.0 {
                MergeDecision::Merge => {
                    match current {
                        OpenUnit::Open(mut unit) => {
                            let ghost u0 = unit;
                            unit.segment_ids.push(segment.id.clone());
                            unit.end_block_id = segment.end_block_id;
                            assert(unit.segment_ids@.map_values(|s: String| s@)
                                == u0.segment_ids@.map_values(|s: String| s@).push(segment.id@));
                            current = OpenUnit::Open(unit);
                        },
                        OpenUnit::Empty => {
                            let content_type = self.determine_content_type(segment, i, n);
                            let unit = self.create_reading_unit(segment, 1, None, content_type.unwrap());
                            current = OpenUnit::Open(unit);
                        },
                    }
                },
                MergeDecision::CreateNew => {
                    match current {
                        OpenUnit::Open(unit) => {
                            units.push(unit);
                            assert(units_view(units@) == st.done.push(st.open.unwrap()));
                        },
                        OpenUnit::Empty => {},
                    }
                    let unit_level = match decision.2 {
                        Some(l) => l,
                        None => 1,
                    };
                    let parent_id = if unit_level == 2 {
                        match &last_chapter {
                            Some(p) => Some(p.clone()),
                            None => None,
                        }
                    } else {
                        None
                    };
                    let content_type = self.determine_content_type(segment, i, n);
                    let new_unit = self.create_reading_unit(
                        segment,
                        unit_level,
                        parent_id,
                        content_type.unwrap(),
                    );
                    if unit_level == 1 {
                        last_chapter = Some(new_unit.id.clone());
                    }
                    current = OpenUnit::Open(new_unit);
                },
            }
            i = i + 1;
        }
        match current {
            OpenUnit::Open(unit) => {
                units.push(unit);
            },
            OpenUnit::Empty => {},
        }
        proof {
            let st = run(book, first, segments@, decisions@, n as nat);
            match st.open {
                Some(u) => {
                    assert(units_view(units@) == st.done.push(u));
                },
                None => {},
            }
        }
        Ok(units)
    }

    /// A new unit seeded by `segment`; takes the next id from the counter.
    fn create_reading_unit(
        &mut self,
        segment: &Segment,
        level: u32,
        parent_id: Option<String>,
        content_type: ContentType,
    ) -> (r: ReadingUnit)
        requires
            old(self).next_unit_id < u32::MAX,
        ensures
            unit_view(r) == new_unit(
                old(self).book_id,
                old(self).next_unit_id as nat,
                *segment,
                level,
                opt_text(parent_id),
                content_type,
            ),
            final(self).book_id == old(self).book_id,
            final(self).next_unit_id == old(self).next_unit_id + 1,
    {
        let title = match &segment.heading {
            Some(h) => h.text.clone(),
            None => {
                let mut t = String::from_str("未命名章节 ");
                push_int(&mut t, segment.chapter_id as i64);
                t
            },
        };
        let source = if segment.toc_level.is_some() {
            String::from_str("toc")
        } else {
            String::from_str("heuristic")
        };
        let counter = self.next_unit_id;
        self.next_unit_id = counter + 1;
        let mut id = String::from_str("ru-");
        push_int(&mut id, self.book_id as i64);
        id.append("-");
        push_int(&mut id, counter as i64);
        let segment_ids = vec![segment.id.clone()];
        assert(segment_ids@.map_values(|s: String| s@) == seq![segment.id@]);
        ReadingUnit {
            id,
            book_id: self.book_id,
            title,
            level,
            parent_id,
            segment_ids,
            start_block_id: segment.start_block_id,
            end_block_id: segment.end_block_id,
            source,
            content_type: Some(content_type),
            summary: None,
        }
    }

    /// Content type of a unit opened by segment `index` of `total`.
    pub fn determine_content_type(&self, segment: &Segment, index: usize, total: usize) -> (r:
        Option<ContentType>)
        ensures
            r == Some(content_type_of(*segment, index as int, total as int)),
    {
        if let Some(heading) = &segment.heading {
            match classify_heading_text(heading.text.as_str()) {
                ContentFeature::Body => {},
                _ => {
                    return Some(ContentType::Frontmatter);
                },
            }
        }
        if index < total / 20 && segment.length < 500 {
            return Some(ContentType::Frontmatter);
        }
        if index as u128 >= (total as u128) * 19 / 20 {
            return Some(ContentType::Backmatter);
        }
        Some(ContentType::Body)
    }
}

} // verus!
