//! The decisions of the theme lifecycle: the shared stylesheet is injected
//! into a document at most once, and only the activation that injected it
//! registers the teardown that removes it.
use vstd::prelude::*;

verus! {

/// What a document holds of the library's stylesheet: how many marked
/// stylesheet elements, and how many registered teardowns remove one.
#[derive(Debug, Clone, Copy, PartialEq, Eq, Structural)]
pub struct StyleSheets {
    pub sheets: u32,
    pub teardowns: u32,
}

/// At most one stylesheet, and no more teardowns than stylesheets.
pub open spec fn sheets_wf(s: StyleSheets) -> bool {
    s.sheets <= 1 && s.teardowns <= s.sheets
}

/// An activation: where no stylesheet is present, one is injected and its
/// teardown registered; otherwise nothing changes.
pub open spec fn activated(s: StyleSheets) -> StyleSheets {
    if s.sheets == 0 {
        StyleSheets { sheets: 1, teardowns: (s.teardowns + 1) as u32 }
    } else {
        s
    }
}

/// A document without the stylesheet and without teardowns.
pub open spec fn fresh_document() -> StyleSheets {
    StyleSheets { sheets: 0, teardowns: 0 }
}

/// Disposal of the surface: every registered teardown removes a
/// stylesheet.
pub open spec fn disposed(s: StyleSheets) -> StyleSheets {
    StyleSheets { sheets: (s.sheets - s.teardowns) as u32, teardowns: 0 }
}

impl StyleSheets {
    /// A document as first seen: with or without the marked stylesheet,
    /// and no teardown registered by this surface.
    pub fn observed(present: bool) -> (r: Self)
        ensures
            sheets_wf(r),
            r == (StyleSheets { sheets: if present { 1 } else { 0 }, teardowns: 0 }),
    {
        StyleSheets { sheets: if present { 1 } else { 0 }, teardowns: 0 }
    }

    /// Activates the theme on the document. Returns whether the stylesheet
    /// must be injected now, with a teardown registered for it.
    pub fn activate(&mut self) -> (inject: bool)
        requires
            sheets_wf(*old(self)),
        ensures
            sheets_wf(*final(self)),
            *final(self) == activated(*old(self)),
            inject == (old(self).sheets == 0),
    {
        if self.sheets == 0 {
            self.sheets = 1;
            self.teardowns = self.teardowns + 1;
            true
        } else {
            false
        }
    }

    /// Runs the registered teardowns.
    pub fn dispose(&mut self)
        requires
            sheets_wf(*old(self)),
        ensures
            sheets_wf(*final(self)),
            *final(self) == disposed(*old(self)),
    {
        self.sheets = self.sheets - self.teardowns;
        self.teardowns = 0;
    }
}

/// Activating twice is activating once: the document ends with exactly
/// one stylesheet, and a fresh document with exactly one teardown.
pub proof fn lemma_activation_idempotent(s: StyleSheets)
    requires
        sheets_wf(s),
    ensures
        activated(activated(s)) == activated(s),
        activated(s).sheets == 1,
        sheets_wf(activated(s)),
        s == fresh_document() ==> activated(activated(s)) == (StyleSheets {
            sheets: 1,
            teardowns: 1,
        }),
{
}

/// A surface that injected the stylesheet removes exactly that one copy
/// when disposed.
pub proof fn lemma_teardown_removes_injected()
    ensures
        disposed(activated(activated(fresh_document()))) == fresh_document(),
{
}

} // verus!
