use vstd::prelude::*;

verus! {

/// One refused record: where it stands and why it was refused.
#[derive(Debug)]
pub struct DecodeError {
    /// The index of the record in the status file.
    pub index: usize,
    /// The offset of the record's first byte, counted from the first record.
    pub byte_offset: usize,
    /// Why the record was refused.
    pub message: String,
}

/// What a `DecodeError` holds, with the message as a sequence of characters.
pub ghost struct DecodeErrorView {
    pub index: usize,
    pub byte_offset: usize,
    pub message: Seq<char>,
}

/// What a `DecodeErrors` holds: the first report and the number of reports.
pub ghost struct DecodeErrorsView {
    pub first: Option<DecodeErrorView>,
    pub count: nat,
}

impl DecodeErrorsView {
    /// No report yet.
    pub open spec fn empty() -> DecodeErrorsView {
        DecodeErrorsView { first: None, count: 0 }
    }

    /// The log after one more report. The first report is kept and later ones
    /// are only counted; the count stops at `usize::MAX`.
    pub open spec fn report(self, index: usize, byte_offset: usize, message: Seq<char>) -> DecodeErrorsView {
        DecodeErrorsView {
            first: if self.first is None {
                Some(DecodeErrorView { index, byte_offset, message })
            } else {
                self.first
            },
            count: if self.count < usize::MAX {
                self.count + 1
            } else {
                self.count
            },
        }
    }

    /// The number of reports that were counted and not kept.
    pub open spec fn suppressed(self) -> nat {
        if self.count == 0 {
            0
        } else {
            (self.count - 1) as nat
        }
    }
}

impl View for DecodeError {
    type V = DecodeErrorView;

    open spec fn view(&self) -> DecodeErrorView {
        DecodeErrorView { index: self.index, byte_offset: self.byte_offset, message: self.message@ }
    }
}

/// A bounded log of refused records: it keeps the first report in full and
/// counts the others, so that a corrupt file costs one message and not one
/// for each record.
#[derive(Debug)]
pub struct DecodeErrors {
    first: Option<DecodeError>,
    count: usize,
}

impl View for DecodeErrors {
    type V = DecodeErrorsView;

    closed spec fn view(&self) -> DecodeErrorsView {
        DecodeErrorsView {
            first: match self.first {
                Some(error) => Some(error@),
                None => None,
            },
            count: self.count as nat,
        }
    }
}

impl DecodeErrors {
    #[verifier::type_invariant]
    spec fn well_formed(self) -> bool {
        (self.first is None) == (self.count == 0)
    }

    /// An empty log.
    pub fn new() -> (errors: DecodeErrors)
        ensures
            errors@ == DecodeErrorsView::empty(),
    {
        DecodeErrors { first: None, count: 0 }
    }

    /// Takes one report: keeps it if it is the first, and counts it.
    pub fn report(&mut self, index: usize, byte_offset: usize, message: &str)
        ensures
            final(self)@ == old(self)@.report(index, byte_offset, message@),
    {
        proof {
            use_type_invariant(&*self);
        }
        if self.count == 0 {
            *self = DecodeErrors {
                first: Some(DecodeError { index, byte_offset, message: message.to_owned() }),
                count: 1,
            };
        } else if self.count < usize::MAX {
            self.count = self.count + 1;
        }
    }

    /// The number of reports taken so far.
    pub fn count(&self) -> (count: usize)
        ensures
            count == self@.count,
            (count == 0) == (self@.first is None),
    {
        proof {
            use_type_invariant(self);
        }
        self.count
    }

    /// The number of reports that were counted and not kept.
    pub fn suppressed(&self) -> (count: usize)
        ensures
            count == self@.suppressed(),
    {
        if self.count == 0 {
            0
        } else {
            self.count - 1
        }
    }

    /// The first report, if there was any.
    pub fn first(&self) -> (first: Option<&DecodeError>)
        ensures
            match first {
                Some(error) => self@.first == Some(error@),
                None => self@.first is None,
            },
    {
        self.first.as_ref()
    }
}

} // verus!
