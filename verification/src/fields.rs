//! The optional fields of a task that can be reset to empty.

use crate::error::{Error, ErrorKind, ErrorView};
use crate::text::{joined, same_text};
use vstd::prelude::*;

verus! {

/// A field of a task that can be cleared.
#[derive(Clone, Copy, Debug, PartialEq, Eq, Hash, Structural)]
pub enum ClearableField {
    DueDate,
    Description,
}

/// The failure reported for a name that is no clearable field.
pub open spec fn not_clearable(s: Seq<char>) -> ErrorView {
    ErrorView { kind: ErrorKind::Validation, message: "Field not clearable on task: "@ + s }
}

/// A set of clearable fields.
#[derive(Clone, Copy, Debug, PartialEq, Eq)]
pub struct FieldSet {
    due_date: bool,
    description: bool,
}

impl View for FieldSet {
    type V = Set<ClearableField>;

    closed spec fn view(&self) -> Set<ClearableField> {
        Set::new(
            |f: ClearableField|
                match f {
                    ClearableField::DueDate => self.due_date,
                    ClearableField::Description => self.description,
                },
        )
    }
}

impl FieldSet {
    /// The empty set.
    pub fn new() -> (s: FieldSet)
        ensures
            s@ == Set::<ClearableField>::empty(),
    {
        let s = FieldSet { due_date: false, description: false };
        assert(s@ =~= Set::<ClearableField>::empty());
        s
    }

    /// Adds a field. Returns whether it was new to the set.
    pub fn insert(&mut self, field: ClearableField) -> (added: bool)
        ensures
            final(self)@ == old(self)@.insert(field),
            added == !old(self)@.contains(field),
    {
        let added = !self.contains(&field);
        match field {
            ClearableField::DueDate => {
                self.due_date = true;
            },
            ClearableField::Description => {
                self.description = true;
            },
        }
        assert(self@ =~= old(self)@.insert(field));
        added
    }

    /// Whether a field is in the set.
    pub fn contains(&self, field: &ClearableField) -> (b: bool)
        ensures
            b == self@.contains(*field),
    {
        match field {
            ClearableField::DueDate => self.due_date,
            ClearableField::Description => self.description,
        }
    }

    /// Whether the set is empty.
    pub fn is_empty(&self) -> (b: bool)
        ensures
            b == (self@ == Set::<ClearableField>::empty()),
    {
        let b = !self.due_date && !self.description;
        proof {
            if b {
                assert(self@ =~= Set::<ClearableField>::empty());
            } else if self.due_date {
                assert(self@.contains(ClearableField::DueDate));
            } else {
                assert(self@.contains(ClearableField::Description));
            }
        }
        b
    }
}

impl ClearableField {
    /// The name of a field.
    pub open spec fn text(self) -> Seq<char> {
        match self {
            ClearableField::DueDate => "due_date"@,
            ClearableField::Description => "description"@,
        }
    }

    /// The field that a text names, if any.
    pub open spec fn named_by(s: Seq<char>) -> Option<ClearableField> {
        if s == "due_date"@ {
            Some(ClearableField::DueDate)
        } else if s == "description"@ {
            Some(ClearableField::Description)
        } else {
            None
        }
    }

    /// Whether every text of a list names a clearable field.
    pub open spec fn all_named(names: Seq<&str>) -> bool {
        forall|i: int| 0 <= i < names.len() ==> (#[trigger] Self::named_by(names[i]@)) is Some
    }

    /// The first text of a list that names no clearable field.
    pub open spec fn first_unnamed(names: Seq<&str>) -> int {
        choose|i: int|
            0 <= i < names.len() && (#[trigger] Self::named_by(names[i]@)) is None && forall|
                j: int,
            | 0 <= j < i ==> (#[trigger] Self::named_by(names[j]@)) is Some
    }

    /// The fields that the texts of a list name.
    pub open spec fn named_set(names: Seq<&str>) -> Set<ClearableField> {
        Set::new(
            |f: ClearableField|
                exists|i: int|
                    0 <= i < names.len() && #[trigger] Self::named_by(names[i]@) == Some(f),
        )
    }

    /// Reads a field from its name, `due_date` or `description`. Any other
    /// text is a validation failure that quotes the text.
    pub fn from(s: &str) -> (r: Result<ClearableField, Error>)
        ensures
            match Self::named_by(s@) {
                Some(field) => r == Ok::<ClearableField, Error>(field),
                None => r is Err && r->Err_0@ == not_clearable(s@),
            },
    {
        if same_text(s, "due_date") {
            Ok(ClearableField::DueDate)
        } else if same_text(s, "description") {
            Ok(ClearableField::Description)
        } else {
            Err(Error::validation(joined("Field not clearable on task: ", s)))
        }
    }

    /// Reads a set of fields from a list of names. A name may occur more than
    /// once. The first name that is no clearable field fails the whole list.
    pub fn from_field_strs(field_strs: Vec<&str>) -> (r: Result<FieldSet, Error>)
        ensures
            Self::all_named(field_strs@) ==> r is Ok && r->Ok_0@ == Self::named_set(field_strs@),
            !Self::all_named(field_strs@) ==> r is Err && r->Err_0@ == not_clearable(
                field_strs@[Self::first_unnamed(field_strs@)]@,
            ),
    {
        let mut results = FieldSet::new();
        let n = field_strs.len();
        let mut i: usize = 0;
        while i < n
            invariant
                n == field_strs.len(),
                i <= n,
                Self::all_named(field_strs@.take(i as int)),
                results@ == Self::named_set(field_strs@.take(i as int)),
            decreases n - i,
        {
            let ghost before = field_strs@.take(i as int);
            let ghost after = field_strs@.take(i + 1);
            match Self::from(field_strs[i]) {
                Ok(v) => {
                    results.insert(v);
                    proof {
                        assert forall|j: int| 0 <= j < after.len() implies (
                        #[trigger] Self::named_by(after[j]@)) is Some by {
                            if j < i {
                                assert(after[j] == before[j]);
                            }
                        }
                        assert forall|f: ClearableField|
                            results@.contains(f) == Self::named_set(after).contains(f) by {
                            if Self::named_set(before).contains(f) {
                                let k = choose|k: int|
                                    0 <= k < before.len() && #[trigger] Self::named_by(before[k]@)
                                        == Some(f);
                                assert(after[k] == before[k]);
                            }
                            if f == v {
                                assert(Self::named_by(after[i as int]@) == Some(f));
                            }
                            if Self::named_set(after).contains(f) {
                                let k = choose|k: int|
                                    0 <= k < after.len() && #[trigger] Self::named_by(after[k]@)
                                        == Some(f);
                                if k < i {
                                    assert(after[k] == before[k]);
                                }
                            }
                        }
                        assert(results@ =~= Self::named_set(after));
                    }
                },
                Err(e) => {
                    proof {
                        assert(Self::named_by(field_strs@[i as int]@) is None);
                        assert forall|j: int| 0 <= j < i implies (#[trigger] Self::named_by(
                            field_strs@[j]@,
                        )) is Some by {
                            assert(before[j] == field_strs@[j]);
                        }
                        let w = Self::first_unnamed(field_strs@);
                        assert(w == i) by {
                            if w < i {
                                assert(before[w] == field_strs@[w]);
                            }
                        }
                    }
                    return Err(e);
                },
            }
            i += 1;
        }
        proof {
            assert(field_strs@.take(n as int) =~= field_strs@);
        }
        Ok(results)
    }
}

} // verus!
