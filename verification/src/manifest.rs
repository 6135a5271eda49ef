//! The dependency manifest and the copy of it that is safe to install from.
//!
//! The manifest names one dependency per line. A line whose trimmed text
//! starts with the protected marker is left out of the copy, so that an
//! installation cannot replace a build of that package that the user chose.
//! The marker is matched to the letter: a line that spells it in capitals
//! stays.

use crate::paths::join;
use crate::paths::joined_path;
use crate::text::chars_of;
use crate::text::has_prefix_within;
use crate::text::join_lines;
use crate::text::joined_lines;
use crate::text::lines;
use crate::text::lines_of;
use crate::text::trim_bounds;
use crate::text::trimmed;
use vstd::prelude::*;

verus! {

/// The manifest's file name in the runtime's directory.
pub const MANIFEST_NAME: &'static str = "requirements.txt";

/// The file name of the filtered copy.
pub const FILTERED_NAME: &'static str = "requirements_install.txt";

/// What a protected line starts with.
pub const PROTECTED_MARKER: &'static str = "torch";

/// Whether `line` names the protected package.
pub open spec fn is_protected(line: Seq<char>) -> bool {
    PROTECTED_MARKER@.is_prefix_of(trimmed(line))
}

/// The test that an entry passes to stay in the copy.
pub open spec fn stays() -> spec_fn(Seq<char>) -> bool {
    |line: Seq<char>| !is_protected(line)
}

/// The lines of `content` that stay: all but the protected ones, in order.
pub open spec fn kept_entries(content: Seq<char>) -> Seq<Seq<char>> {
    lines_of(content).filter(stays())
}

/// The text of the filtered copy of `content`.
pub open spec fn filtered_text(content: Seq<char>) -> Seq<char> {
    joined_lines(kept_entries(content))
}

/// A manifest and the copy derived from it for one installation attempt.
#[derive(Clone, Debug, PartialEq, Eq)]
pub struct DependencyManifest {
    pub source_path: String,
    pub filtered_entries: Vec<String>,
    pub filtered_path: String,
}

/// A `DependencyManifest` as plain sequences.
pub struct DependencyManifestView {
    pub source_path: Seq<char>,
    pub filtered_entries: Seq<Seq<char>>,
    pub filtered_path: Seq<char>,
}

impl View for DependencyManifest {
    type V = DependencyManifestView;

    open spec fn view(&self) -> DependencyManifestView {
        DependencyManifestView {
            source_path: self.source_path@,
            filtered_entries: self.filtered_entries.deep_view(),
            filtered_path: self.filtered_path@,
        }
    }
}

/// Whether `line` names the protected package.
pub fn protected(line: &str) -> (r: bool)
    ensures
        r == is_protected(line@),
{
    let chars = chars_of(line);
    let marker = chars_of(PROTECTED_MARKER);
    let (from, to) = trim_bounds(&chars);
    has_prefix_within(&chars, from, to, &marker)
}

/// The entries of `entries` that stay, in order.
pub fn keep_entries(entries: &Vec<String>) -> (kept: Vec<String>)
    ensures
        kept.deep_view() == entries.deep_view().filter(stays()),
{
    let mut kept: Vec<String> = Vec::new();
    let mut i: usize = 0;
    proof {
        reveal(Seq::filter);
        assert(entries.deep_view().take(0) =~= Seq::<Seq<char>>::empty());
        assert(kept.deep_view() =~= Seq::<Seq<char>>::empty());
    }
    while i < entries.len()
        invariant
            i <= entries.len(),
            kept.deep_view() == entries.deep_view().take(i as int).filter(stays()),
        decreases entries.len() - i,
    {
        let ghost seen = entries.deep_view().take(i as int);
        let ghost before = kept.deep_view();
        let ghost entry = entries@[i as int]@;
        proof {
            assert(entries.deep_view().take(i + 1) =~= seen.push(entry));
            seen.lemma_filter_push(entry, stays());
        }
        if !protected(entries[i].as_str()) {
            kept.push(entries[i].clone());
            assert(kept.deep_view() =~= before.push(entry));
        }
        i += 1;
    }
    assert(entries.deep_view().take(entries.len() as int) =~= entries.deep_view());
    kept
}

/// The filtered copy of `content`: its lines without the protected ones, put
/// together with a line feed between neighbours.
pub fn filter_manifest(content: &str) -> (copy: String)
    ensures
        copy@ == filtered_text(content@),
{
    let entries = lines(content);
    let kept = keep_entries(&entries);
    join_lines(&kept)
}

/// The manifest's path in the runtime's directory `backend`.
pub fn manifest_path(backend: &str) -> (path: String)
    ensures
        path@ == joined_path(backend@, MANIFEST_NAME@),
{
    join(backend, MANIFEST_NAME)
}

/// The path of the filtered copy in the runtime's directory `backend`.
pub fn filtered_manifest_path(backend: &str) -> (path: String)
    ensures
        path@ == joined_path(backend@, FILTERED_NAME@),
{
    join(backend, FILTERED_NAME)
}

impl DependencyManifest {
    /// The manifest of the runtime in `backend` whose text is `content`, with
    /// the entries that stay.
    pub fn derive(backend: &str, content: &str) -> (manifest: DependencyManifest)
        ensures
            manifest@.source_path == joined_path(backend@, MANIFEST_NAME@),
            manifest@.filtered_path == joined_path(backend@, FILTERED_NAME@),
            manifest@.filtered_entries == kept_entries(content@),
    {
        let entries = lines(content);
        DependencyManifest {
            source_path: manifest_path(backend),
            filtered_entries: keep_entries(&entries),
            filtered_path: filtered_manifest_path(backend),
        }
    }

    /// The text to write to the filtered copy.
    pub fn text(&self) -> (copy: String)
        ensures
            copy@ == joined_lines(self@.filtered_entries),
    {
        join_lines(&self.filtered_entries)
    }
}

/// The path to install from: the filtered copy where it was written, the
/// manifest itself where it was not.
pub open spec fn install_target_path(backend: Seq<char>, filtered: bool) -> Seq<char> {
    if filtered {
        joined_path(backend, FILTERED_NAME@)
    } else {
        joined_path(backend, MANIFEST_NAME@)
    }
}

/// The path to install from.
pub fn install_target(backend: &str, filtered: bool) -> (path: String)
    ensures
        path@ == install_target_path(backend@, filtered),
{
    if filtered {
        filtered_manifest_path(backend)
    } else {
        manifest_path(backend)
    }
}

} // verus!
