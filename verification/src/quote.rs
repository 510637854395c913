//! A quotation that pops up when its scene comes on.

use vstd::prelude::*;

verus! {

/// How long the quotation takes to grow to full size: a quarter of a
/// second, in microseconds.
pub const POP_TIME: u32 = 250_000;

/// A quotation, its source, and how long it has been on screen.
pub struct QuoteScene {
    pub quote_text: String,
    pub source: String,
    pub name: String,
    /// Microseconds on screen, counted up to [`POP_TIME`].
    pub t: u32,
}

/// A [`QuoteScene`] as contracts see it.
pub ghost struct QuoteView {
    pub quote_text: Seq<char>,
    pub source: Seq<char>,
    pub name: Seq<char>,
    pub t: u32,
}

impl View for QuoteScene {
    type V = QuoteView;

    open spec fn view(&self) -> QuoteView {
        QuoteView {
            quote_text: self.quote_text@,
            source: self.source@,
            name: self.name@,
            t: self.t,
        }
    }
}

impl QuoteView {
    /// A quotation that has not been on screen yet.
    pub open spec fn fresh(quote_text: Seq<char>, source: Seq<char>, name: Seq<char>) -> QuoteView {
        QuoteView { quote_text, source, name, t: 0 }
    }

    /// The quotation after `dt` more microseconds on screen.
    pub open spec fn tick(self, dt: u32) -> QuoteView {
        QuoteView {
            t: if self.t + dt < POP_TIME {
                (self.t + dt) as u32
            } else {
                POP_TIME
            },
            ..self
        }
    }

    /// The quotation as it comes on screen.
    pub open spec fn rewound(self) -> QuoteView {
        QuoteView { t: 0, ..self }
    }
}

impl QuoteScene {
    pub fn new(quote_text: &str, source: &str, name: &str) -> (r: QuoteScene)
        ensures
            r@ == QuoteView::fresh(quote_text@, source@, name@),
    {
        QuoteScene {
            quote_text: quote_text.to_owned(),
            source: source.to_owned(),
            name: name.to_owned(),
            t: 0,
        }
    }

    /// Counts the time on screen, up to [`POP_TIME`].
    pub fn update(&mut self, dt: u32)
        ensures
            final(self)@ == old(self)@.tick(dt),
    {
        let sum: u64 = self.t as u64 + dt as u64;
        self.t = if sum < POP_TIME as u64 {
            sum as u32
        } else {
            POP_TIME
        };
    }

    /// Starts the pop-up over.
    pub fn reset(&mut self)
        ensures
            final(self)@ == old(self)@.rewound(),
    {
        self.t = 0;
    }
}

} // verus!
