//! Capture sources (screens and windows) and their identifiers.
//!
//! The caller enumerates what the platform can capture and describes each
//! target as a [`TargetInfo`]; this module names them for the user interface
//! and resolves a chosen identifier back to its target.

use vstd::prelude::*;
use vstd::string::*;
use crate::text::{decimal, u32_to_decimal, lemma_decimal_injective};

verus! {

/// Whether a source is a whole display or a single window.
#[derive(Debug, Clone, Copy, PartialEq, Eq, Structural)]
pub enum SourceType {
    Screen,
    Window,
}

/// A capture source as shown to the user.
#[derive(Debug, Clone)]
pub struct CaptureSource {
    pub id: String,
    pub name: String,
    pub source_type: SourceType,
}

/// A capturable target as the platform reports it: its kind, its numeric
/// identifier and its title.
#[derive(Debug, Clone)]
pub struct TargetInfo {
    pub source_type: SourceType,
    pub id: u32,
    pub title: String,
}

/// The identifier of a target: `display-<id>` for a screen, `window-<id>` for
/// a window.
pub open spec fn source_id_spec(source_type: SourceType, id: u32) -> Seq<char> {
    match source_type {
        SourceType::Screen => "display-"@ + decimal(id as nat),
        SourceType::Window => "window-"@ + decimal(id as nat),
    }
}

/// The identifier of target `t`.
pub open spec fn target_id(t: TargetInfo) -> Seq<char> {
    source_id_spec(t.source_type, t.id)
}

/// The source that lists target `t`.
pub open spec fn listed(c: CaptureSource, t: TargetInfo) -> bool {
    &&& c.id@ == target_id(t)
    &&& c.name@ == t.title@
    &&& c.source_type == t.source_type
}

/// Builds the identifier of a target.
pub fn source_id(source_type: SourceType, id: u32) -> (r: String)
    ensures
        r@ == source_id_spec(source_type, id),
{
    let mut r = match source_type {
        SourceType::Screen => String::from_str("display-"),
        SourceType::Window => String::from_str("window-"),
    };
    let digits = u32_to_decimal(id);
    r.append(digits.as_str());
    r
}

/// Lists every target as a capture source, in the order given.
pub fn get_available_sources(targets: &Vec<TargetInfo>) -> (r: Vec<CaptureSource>)
    ensures
        r.len() == targets.len(),
        forall|i: int| 0 <= i < targets.len() ==> listed(#[trigger] r@[i], targets@[i]),
{
    let mut sources: Vec<CaptureSource> = Vec::new();
    let n: usize = targets.len();
    for i in 0..n
        invariant
            n == targets.len(),
            sources.len() == i,
            forall|k: int| 0 <= k < i ==> listed(#[trigger] sources@[k], targets@[k]),
    {
        let t = &targets[i];
        let name = t.title.clone();
        sources.push(CaptureSource { id: source_id(t.source_type, t.id), name, source_type: t.source_type });
    }
    sources
}

/// Finds the first target whose identifier is `source_id`.
pub fn find_target(targets: &Vec<TargetInfo>, source_id: &str) -> (r: Option<usize>)
    ensures
        match r {
            Some(j) => {
                &&& j < targets.len()
                &&& target_id(targets@[j as int]) == source_id@
                &&& forall|k: int| 0 <= k < j ==> target_id(#[trigger] targets@[k]) != source_id@
            },
            None => forall|k: int| 0 <= k < targets.len() ==> target_id(#[trigger] targets@[k]) != source_id@,
        },
{
    let wanted = String::from_str(source_id);
    let n: usize = targets.len();
    for i in 0..n
        invariant
            n == targets.len(),
            wanted@ == source_id@,
            forall|k: int| 0 <= k < i ==> target_id(#[trigger] targets@[k]) != source_id@,
    {
        let candidate = self::source_id(targets[i].source_type, targets[i].id);
        if candidate == wanted {
            return Some(i);
        }
    }
    None
}

/// Resolves a chosen identifier to its target, or says it is not there.
pub fn resolve_source(targets: &Vec<TargetInfo>, source_id: &str) -> (r: Result<usize, String>)
    ensures
        match r {
            Ok(j) => {
                &&& j < targets.len()
                &&& target_id(targets@[j as int]) == source_id@
                &&& forall|k: int| 0 <= k < j ==> target_id(#[trigger] targets@[k]) != source_id@
            },
            Err(e) => {
                &&& e@ == "Capture source not found"@
                &&& forall|k: int| 0 <= k < targets.len() ==> target_id(#[trigger] targets@[k]) != source_id@
            },
        },
{
    match find_target(targets, source_id) {
        Some(j) => Ok(j),
        None => Err(String::from_str("Capture source not found")),
    }
}

/// An identifier names exactly one kind and number: two targets share an
/// identifier only when they have the same kind and the same numeric id.
pub proof fn lemma_source_id_unique(k1: SourceType, n1: u32, k2: SourceType, n2: u32)
    ensures
        source_id_spec(k1, n1) == source_id_spec(k2, n2) <==> (k1 == k2 && n1 == n2),
{
    reveal_strlit("display-");
    reveal_strlit("window-");
    let a = source_id_spec(k1, n1);
    let b = source_id_spec(k2, n2);
    if a == b {
        let p1 = if k1 == SourceType::Screen { "display-"@ } else { "window-"@ };
        let p2 = if k2 == SourceType::Screen { "display-"@ } else { "window-"@ };
        crate::text::lemma_decimal_digits(n1 as nat);
        crate::text::lemma_decimal_digits(n2 as nat);
        if k1 != k2 {
            assert(a[0] == p1[0]);
            assert(b[0] == p2[0]);
        } else {
            assert(a.skip(p1.len() as int) =~= decimal(n1 as nat));
            assert(b.skip(p2.len() as int) =~= decimal(n2 as nat));
            lemma_decimal_injective(n1 as nat, n2 as nat);
        }
    }
}

/// Every listed source resolves: looking up the identifier of the source at
/// position `i` finds a target at or before `i` with the same kind and number;
/// when no earlier target has that kind and number, it finds target `i` itself.
pub proof fn lemma_listed_source_resolves(targets: Seq<TargetInfo>, sources: Seq<CaptureSource>, i: int, j: int)
    requires
        sources.len() == targets.len(),
        forall|k: int| 0 <= k < targets.len() ==> listed(#[trigger] sources[k], targets[k]),
        0 <= i < targets.len(),
        0 <= j < targets.len(),
        target_id(targets[j]) == sources[i].id@,
        forall|k: int| 0 <= k < j ==> target_id(#[trigger] targets[k]) != sources[i].id@,
    ensures
        j <= i,
        targets[j].source_type == targets[i].source_type,
        targets[j].id == targets[i].id,
        (forall|k: int| 0 <= k < i ==> !(#[trigger] targets[k].source_type == targets[i].source_type
            && targets[k].id == targets[i].id)) ==> j == i,
{
    assert(listed(sources[i], targets[i]));
    lemma_source_id_unique(targets[j].source_type, targets[j].id, targets[i].source_type, targets[i].id);
    if j > i {
        assert(target_id(targets[i]) != sources[i].id@);
    }
}

} // verus!
