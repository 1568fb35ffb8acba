//! Choosing the one executable to debug. The choice is exact and fails
//! closed: it never guesses among several candidates.

use vstd::prelude::*;
use crate::text::opt_text;
use crate::messages::{record_views, ArtifactRecord, ArtifactRecordView};

verus! {

/// Why no executable was selected.
#[derive(Clone, Debug, PartialEq, Eq)]
pub enum SelectError {
    /// A binary was named, and no artifact with an executable has that
    /// target name.
    NotFound { name: String },
    /// No binary was named, and the build produced `candidates` executables,
    /// which is not exactly one.
    Ambiguous { candidates: usize },
}

/// A `SelectError` with its name taken as a character sequence.
pub enum SelectErrorView {
    NotFound { name: Seq<char> },
    Ambiguous { candidates: nat },
}

impl View for SelectError {
    type V = SelectErrorView;

    open spec fn view(&self) -> SelectErrorView {
        match self {
            SelectError::NotFound { name } => SelectErrorView::NotFound { name: name@ },
            SelectError::Ambiguous { candidates } => SelectErrorView::Ambiguous {
                candidates: *candidates as nat,
            },
        }
    }
}

/// The records that carry an executable, in order.
pub open spec fn candidates(records: Seq<ArtifactRecordView>) -> Seq<ArtifactRecordView>
    decreases records.len(),
{
    if records.len() == 0 {
        Seq::empty()
    } else if records.last().executable is Some {
        candidates(records.drop_last()).push(records.last())
    } else {
        candidates(records.drop_last())
    }
}

/// Whether a record is a candidate for the name: it carries an executable
/// and its target name is exactly `name`.
pub open spec fn matches_name(r: ArtifactRecordView, name: Seq<char>) -> bool {
    r.executable is Some && r.target_name == name
}

/// The executable of the first record that matches `name`, if any does.
pub open spec fn first_named(records: Seq<ArtifactRecordView>, name: Seq<char>) -> Option<
    Seq<char>,
>
    decreases records.len(),
{
    if records.len() == 0 {
        None
    } else {
        match first_named(records.drop_last(), name) {
            Some(path) => Some(path),
            None => if matches_name(records.last(), name) {
                records.last().executable
            } else {
                None
            },
        }
    }
}

/// The selection rule. With a name: the first record that matches it, else
/// `NotFound`. Without: the only candidate, else `Ambiguous`.
pub open spec fn select_spec(records: Seq<ArtifactRecordView>, bin: Option<Seq<char>>) -> Result<
    Seq<char>,
    SelectErrorView,
> {
    match bin {
        Some(name) => match first_named(records, name) {
            Some(path) => Ok(path),
            None => Err(SelectErrorView::NotFound { name }),
        },
        None => {
            let c = candidates(records);
            if c.len() == 1 {
                Ok(c[0].executable->0)
            } else {
                Err(SelectErrorView::Ambiguous { candidates: c.len() })
            }
        },
    }
}

/// The view of a selection result.
pub open spec fn selection_view(r: Result<String, SelectError>) -> Result<
    Seq<char>,
    SelectErrorView,
> {
    match r {
        Ok(path) => Ok(path@),
        Err(e) => Err(e@),
    }
}

/// The message shown to the user for a failed selection.
pub open spec fn message_spec(e: SelectErrorView) -> Seq<char> {
    match e {
        SelectErrorView::NotFound { name } => "Could not find binary artifact "@ + name,
        SelectErrorView::Ambiguous { .. } =>
            "More than one binary artifact produced, please explicitly specify the binary."@,
    }
}

impl SelectError {
    /// The process exit code for a failed selection: always 1.
    pub fn exit_code(&self) -> (code: i32)
        ensures
            code == 1,
    {
        1
    }

    /// The message shown to the user. For a missing binary it ends with the
    /// name that was asked for.
    pub fn message(&self) -> (text: String)
        ensures
            text@ == message_spec(self@),
    {
        match self {
            SelectError::NotFound { name } => {
                String::from_str("Could not find binary artifact ").concat(name.as_str())
            },
            SelectError::Ambiguous { .. } => {
                String::from_str(
                    "More than one binary artifact produced, please explicitly specify the binary.",
                )
            },
        }
    }
}

/// Selects the executable to debug from the build's artifact records.
///
/// With `bin` given, the first record that carries an executable and whose
/// target name equals it exactly (case-sensitive) is selected. Without,
/// the record that carries an executable is selected if there is exactly one.
pub fn select_binary(records: &Vec<ArtifactRecord>, bin: &Option<String>) -> (result: Result<
    String,
    SelectError,
>)
    ensures
        selection_view(result) == select_spec(record_views(records@), opt_text(*bin)),
{
    let ghost rs = record_views(records@);
    match bin {
        Some(name) => {
            let mut i: usize = 0;
            assert(rs.subrange(0, 0) =~= Seq::empty());
            while i < records.len()
                invariant
                    i <= records.len(),
                    rs == record_views(records@),
                    opt_text(*bin) == Some(name@),
                    first_named(rs.subrange(0, i as int), name@) is None,
                decreases records.len() - i,
            {
                let ghost next = rs.subrange(0, i + 1);
                assert(next.drop_last() =~= rs.subrange(0, i as int));
                assert(next.last() == records@[i as int]@);
                let r = &records[i];
                if r.target_name == *name {
                    match &r.executable {
                        Some(path) => {
                            let selected = path.clone();
                            proof {
                                assert(matches_name(next.last(), name@));
                                assert(first_named(next, name@) == Some(selected@));
                                lemma_first_named_prefix(rs, i + 1, name@);
                            }
                            return Ok(selected);
                        },
                        None => {},
                    }
                }
                i += 1;
            }
            assert(rs.subrange(0, i as int) =~= rs);
            Err(SelectError::NotFound { name: name.clone() })
        },
        None => {
            let mut count: usize = 0;
            let mut found: Option<String> = None;
            let mut i: usize = 0;
            assert(rs.subrange(0, 0) =~= Seq::empty());
            while i < records.len()
                invariant
                    i <= records.len(),
                    rs == record_views(records@),
                    count == candidates(rs.subrange(0, i as int)).len(),
                    count <= i,
                    count > 0 ==> found is Some && opt_text(found) == candidates(
                        rs.subrange(0, i as int),
                    )[0].executable,
                decreases records.len() - i,
            {
                let ghost seen = rs.subrange(0, i as int);
                let ghost next = rs.subrange(0, i + 1);
                assert(next.drop_last() =~= seen);
                assert(next.last() == records@[i as int]@);
                match &records[i].executable {
                    Some(path) => {
                        if count == 0 {
                            found = Some(path.clone());
                        }
                        count += 1;
                    },
                    None => {},
                }
                i += 1;
            }
            assert(rs.subrange(0, i as int) =~= rs);
            match found {
                Some(path) => if count == 1 {
                    Ok(path)
                } else {
                    Err(SelectError::Ambiguous { candidates: count })
                },
                None => Err(SelectError::Ambiguous { candidates: count }),
            }
        },
    }
}

/// A match found in a prefix of the records is the match in all of them.
pub proof fn lemma_first_named_prefix(records: Seq<ArtifactRecordView>, n: int, name: Seq<char>)
    requires
        0 <= n <= records.len(),
        first_named(records.subrange(0, n), name) is Some,
    ensures
        first_named(records, name) == first_named(records.subrange(0, n), name),
    decreases records.len() - n,
{
    if n < records.len() {
        let next = records.subrange(0, n + 1);
        assert(next.drop_last() =~= records.subrange(0, n));
        lemma_first_named_prefix(records, n + 1, name);
    } else {
        assert(records.subrange(0, n) =~= records);
    }
}

/// Without candidates among the records, nothing is kept.
pub proof fn lemma_no_candidates(records: Seq<ArtifactRecordView>)
    requires
        forall|k: int| 0 <= k < records.len() ==> (#[trigger] records[k]).executable is None,
    ensures
        candidates(records) == Seq::<ArtifactRecordView>::empty(),
    decreases records.len(),
{
    if records.len() > 0 {
        assert(records[records.len() - 1] == records.last());
        lemma_no_candidates(records.drop_last());
    }
}

/// A record that carries an executable is counted.
pub proof fn lemma_some_candidate(records: Seq<ArtifactRecordView>, i: int)
    requires
        0 <= i < records.len(),
        records[i].executable is Some,
    ensures
        candidates(records).len() >= 1,
    decreases records.len(),
{
    if i < records.len() - 1 {
        lemma_some_candidate(records.drop_last(), i);
    }
}

/// If exactly one record carries an executable and no binary was named, that
/// record's executable is selected.
pub proof fn lemma_single_candidate_is_selected(records: Seq<ArtifactRecordView>, i: int)
    requires
        0 <= i < records.len(),
        records[i].executable is Some,
        forall|k: int|
            0 <= k < records.len() && k != i ==> (#[trigger] records[k]).executable is None,
    ensures
        candidates(records) == seq![records[i]],
        select_spec(records, None) == Ok::<Seq<char>, SelectErrorView>(records[i].executable->0),
    decreases records.len(),
{
    let init = records.drop_last();
    if i == records.len() - 1 {
        lemma_no_candidates(init);
        assert(candidates(records) =~= seq![records[i]]);
    } else {
        assert(records[records.len() - 1] == records.last());
        lemma_single_candidate_is_selected(init, i);
    }
}

/// If two or more records carry an executable and no binary was named, the
/// selection fails and none of them is selected.
pub proof fn lemma_several_candidates_are_refused(
    records: Seq<ArtifactRecordView>,
    i: int,
    j: int,
)
    requires
        0 <= i < j < records.len(),
        records[i].executable is Some,
        records[j].executable is Some,
    ensures
        candidates(records).len() >= 2,
        select_spec(records, None) == Err::<Seq<char>, SelectErrorView>(
            SelectErrorView::Ambiguous { candidates: candidates(records).len() },
        ),
    decreases records.len(),
{
    let init = records.drop_last();
    if j == records.len() - 1 {
        lemma_some_candidate(init, i);
    } else {
        lemma_several_candidates_are_refused(init, i, j);
    }
}

/// If no record carries an executable and no binary was named, the selection
/// fails as well.
pub proof fn lemma_no_candidate_is_refused(records: Seq<ArtifactRecordView>)
    requires
        forall|k: int| 0 <= k < records.len() ==> (#[trigger] records[k]).executable is None,
    ensures
        select_spec(records, None) == Err::<Seq<char>, SelectErrorView>(
            SelectErrorView::Ambiguous { candidates: 0 },
        ),
{
    lemma_no_candidates(records);
}

/// A named selection finds the first record that carries an executable and
/// has exactly that target name, and fails only where there is none.
pub proof fn lemma_first_named_is_first_match(records: Seq<ArtifactRecordView>, name: Seq<char>)
    ensures
        first_named(records, name) is None <==> forall|k: int|
            0 <= k < records.len() ==> !matches_name(#[trigger] records[k], name),
        first_named(records, name) matches Some(path) ==> exists|k: int|
            {
                &&& 0 <= k < records.len()
                &&& matches_name(#[trigger] records[k], name)
                &&& records[k].executable == Some(path)
                &&& forall|j: int| 0 <= j < k ==> !matches_name(#[trigger] records[j], name)
            },
    decreases records.len(),
{
    if records.len() > 0 {
        let init = records.drop_last();
        let n = records.len() - 1;
        lemma_first_named_is_first_match(init, name);
        assert(records[n] == records.last());
        assert(forall|k: int| 0 <= k < n ==> init[k] == records[k]);
        match first_named(init, name) {
            Some(path) => {
                let k = choose|k: int|
                    {
                        &&& 0 <= k < init.len()
                        &&& matches_name(#[trigger] init[k], name)
                        &&& init[k].executable == Some(path)
                        &&& forall|j: int| 0 <= j < k ==> !matches_name(#[trigger] init[j], name)
                    };
                assert(matches_name(records[k], name));
                assert(forall|j: int| 0 <= j < k ==> init[j] == records[j]);
            },
            None => {
                if matches_name(records.last(), name) {
                    assert(matches_name(records[n], name));
                }
            },
        }
    }
}

/// If a binary was named and no record has exactly that target name, the
/// selection fails, and the failure message names the binary.
pub proof fn lemma_missing_name_is_reported(records: Seq<ArtifactRecordView>, name: Seq<char>)
    requires
        forall|k: int| 0 <= k < records.len() ==> (#[trigger] records[k]).target_name != name,
    ensures
        select_spec(records, Some(name)) == Err::<Seq<char>, SelectErrorView>(
            SelectErrorView::NotFound { name },
        ),
        name.is_suffix_of(message_spec(SelectErrorView::NotFound { name })),
{
    lemma_first_named_is_first_match(records, name);
    let message = message_spec(SelectErrorView::NotFound { name });
    assert(message.subrange(message.len() - name.len(), message.len() as int) =~= name);
}

} // verus!
