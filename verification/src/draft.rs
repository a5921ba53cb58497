//! A value with an optional pending edit: the committed data, and a draft that is edited
//! apart from it and then either applied (it becomes the data) or discarded.
use vstd::prelude::*;

verus! {

/// The committed data and the pending draft, if any.
pub struct DraftView<T> {
    pub data: T,
    pub draft: Option<T>,
}

/// A value under edit. Readers see the committed data until the draft is applied.
#[derive(Debug)]
pub struct Draft<T> {
    data: T,
    draft: Option<T>,
}

impl<T> View for Draft<T> {
    type V = DraftView<T>;

    closed spec fn view(&self) -> DraftView<T> {
        DraftView { data: self.data, draft: self.draft }
    }
}

/// The state after `apply`, and what `apply` returns: the previous data when a draft was
/// pending (the draft becomes the data), else nothing and no change.
pub open spec fn spec_apply<T>(s: DraftView<T>) -> (DraftView<T>, Option<T>) {
    match s.draft {
        Some(d) => (DraftView { data: d, draft: None }, Some(s.data)),
        None => (s, None),
    }
}

/// The state after `discard`, and what `discard` returns: the pending draft, if any,
/// which is dropped; the data stays.
pub open spec fn spec_discard<T>(s: DraftView<T>) -> (DraftView<T>, Option<T>) {
    (DraftView { data: s.data, draft: None }, s.draft)
}

/// The latest value: the pending draft if there is one, else the data.
pub open spec fn spec_latest<T>(s: DraftView<T>) -> T {
    match s.draft {
        Some(d) => d,
        None => s.data,
    }
}

/// Whether `edit` is what `draft` hands out on `s`: the pending draft, or a clone of
/// the data when none is pending.
pub open spec fn spec_opened_draft<T: Clone>(s: DraftView<T>, edit: T) -> bool {
    match s.draft {
        Some(d) => edit == d,
        None => cloned(s.data, edit),
    }
}

impl<T> Draft<T> {
    /// A value with no pending draft.
    pub fn new(data: T) -> (r: Draft<T>)
        ensures
            r@ == (DraftView { data, draft: None::<T> }),
    {
        Draft { data, draft: None }
    }

    /// The committed data.
    pub fn data(&self) -> (r: &T)
        ensures
            *r == self@.data,
    {
        &self.data
    }

    /// The committed data, to change in place; the pending draft is not touched.
    pub fn data_mut(&mut self) -> (r: &mut T)
        ensures
            *r == old(self)@.data,
            final(self)@ == (DraftView { data: *final(r), draft: old(self)@.draft }),
    {
        &mut self.data
    }

    /// The latest value: the pending draft if there is one, else the data.
    pub fn latest(&self) -> (r: &T)
        ensures
            *r == spec_latest(self@),
    {
        match &self.draft {
            Some(d) => d,
            None => &self.data,
        }
    }

    /// The latest value, to change in place: the pending draft if there is one, else the
    /// data. Whichever it is takes the change; the other stays.
    pub fn latest_mut(&mut self) -> (r: &mut T)
        ensures
            *r == spec_latest(old(self)@),
            final(self)@ == (match old(self)@.draft {
                Some(_) => DraftView { data: old(self)@.data, draft: Some(*final(r)) },
                None => DraftView { data: *final(r), draft: None },
            }),
    {
        if self.draft.is_some() {
            self.draft.as_mut().unwrap()
        } else {
            &mut self.data
        }
    }

    /// Whether a draft is pending.
    pub fn has_draft(&self) -> (r: bool)
        ensures
            r == self@.draft is Some,
    {
        self.draft.is_some()
    }

    /// Makes the pending draft the data; returns the data it replaces, or nothing when no
    /// draft was pending.
    pub fn apply(&mut self) -> (r: Option<T>)
        ensures
            (final(self)@, r) == spec_apply(old(self)@),
    {
        match self.draft.take() {
            Some(d) => {
                let mut previous: T = d;
                std::mem::swap(&mut self.data, &mut previous);
                Some(previous)
            },
            None => None,
        }
    }

    /// Drops the pending draft and returns it; the data stays.
    pub fn discard(&mut self) -> (r: Option<T>)
        ensures
            (final(self)@, r) == spec_discard(old(self)@),
    {
        self.draft.take()
    }
}

impl<T: Clone> Draft<T> {
    /// The pending draft, to edit; when none is pending, a clone of the data becomes it.
    /// The data is not touched.
    pub fn draft(&mut self) -> (r: &mut T)
        ensures
            spec_opened_draft(old(self)@, *r),
            final(self)@ == (DraftView { data: old(self)@.data, draft: Some(*final(r)) }),
    {
        if self.draft.is_none() {
            let copy = self.data.clone();
            self.draft = Some(copy);
        }
        self.draft.as_mut().unwrap()
    }
}

impl<T> From<T> for Draft<T> {
    /// A value with no pending draft.
    fn from(data: T) -> (r: Draft<T>)
        ensures
            r@ == (DraftView { data, draft: None::<T> }),
    {
        Draft::new(data)
    }
}

impl<T> vstd::std_specs::convert::FromSpecImpl<T> for Draft<T> {
    open spec fn obeys_from_spec() -> bool {
        true
    }

    closed spec fn from_spec(data: T) -> Draft<T> {
        Draft { data, draft: None }
    }
}

/// The state after the edit `edit` of the draft that `draft` opened on `s`.
pub open spec fn spec_edited<T>(s: DraftView<T>, edit: T) -> DraftView<T> {
    DraftView { data: s.data, draft: Some(edit) }
}

/// An edit of the draft is not seen in the data until it is applied; applying it makes
/// it the data and hands back the data it replaced.
pub proof fn lemma_edit_then_apply<T>(s: DraftView<T>, edit: T)
    ensures
        spec_edited(s, edit).data == s.data,
        spec_apply(spec_edited(s, edit)).0 == (DraftView { data: edit, draft: None::<T> }),
        spec_apply(spec_edited(s, edit)).1 == Some(s.data),
{
}

/// The latest value is what the data becomes on `apply`, and what it stays on `discard`
/// when nothing is pending.
pub proof fn lemma_latest_is_applied<T>(s: DraftView<T>)
    ensures
        spec_apply(s).0.data == spec_latest(s),
        spec_latest(spec_apply(s).0) == spec_latest(s),
        spec_latest(spec_discard(s).0) == s.data,
{
}

/// A second `apply` with no edit between finds no draft: it returns nothing and changes
/// nothing.
pub proof fn lemma_apply_twice<T>(s: DraftView<T>)
    ensures
        spec_apply(spec_apply(s).0) == (spec_apply(s).0, None::<T>),
{
}

/// Discarding an edit brings back the state before the draft was opened: the data is the
/// one before the edit, no draft is pending, and the next draft opens on that data.
pub proof fn lemma_edit_then_discard<T: Clone>(s: DraftView<T>, edit: T, next: T)
    requires
        s.draft is None,
    ensures
        spec_discard(spec_edited(s, edit)).0 == s,
        spec_discard(spec_edited(s, edit)).1 == Some(edit),
        spec_opened_draft(spec_discard(spec_edited(s, edit)).0, next) == cloned(s.data, next),
{
}

/// After a discard, nothing is pending: neither `apply` nor a second `discard` finds a draft.
pub proof fn lemma_discard_leaves_nothing<T>(s: DraftView<T>)
    ensures
        spec_apply(spec_discard(s).0) == (spec_discard(s).0, None::<T>),
        spec_discard(spec_discard(s).0).1 == None::<T>,
        spec_discard(s).0.data == s.data,
{
}

/// Opening the draft twice hands out the same draft: the second `draft` sees the edits
/// made through the first.
pub proof fn lemma_draft_reopens_edit<T: Clone>(s: DraftView<T>, edit: T, again: T)
    ensures
        spec_opened_draft(spec_edited(s, edit), again) == (again == edit),
{
}

} // verus!

