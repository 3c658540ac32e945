//! How deep a text nests, read off its bytes without reading it as TOML.
//!
//! The TOML reader calls itself once for each level that a value stands
//! below the top of its document, and it has no limit of its own. A level is
//! added by each part of the table header that a value stands under, by each
//! part but the last of the key it is given to, by each array and inline
//! table around it, and by the keys that those inline tables give it to. The
//! scan here follows the text byte by byte, skips strings and comments as
//! the reader's tokenizer does, and keeps count of the levels open at each
//! place. Its result is the largest count it met.
//!
//! The count is generous in one way: a period in a number counts as a level
//! until the number ends.
use vstd::prelude::*;
use vstd::string::StringSliceAdditionalSpecFns;

verus! {

/// The deepest nesting that is handed to the reader.
pub const DEPTH_LIMIT: usize = 128;

/// What the scan is in the middle of.
#[derive(Clone, Copy, Debug)]
pub enum Lex {
    /// Between strings and comments, where brackets and periods count.
    Code,
    /// In a comment, up to the end of the line.
    Comment,
    /// After one or two opening quotes, not yet knowing the kind of string.
    Opening,
    /// In a string that ends on its line.
    Single,
    /// In a string that may run over lines and ends with three quotes.
    Multi,
    /// After three or four closing quotes, of which there may be five.
    Closing,
}

/// The state of the scan after some bytes of a text.
pub struct Scan {
    /// What the scan is in the middle of.
    pub lex: Lex,
    /// The string at hand is quoted with `"` and knows escapes; else with `'`.
    pub basic: bool,
    /// The byte before was a backslash that escapes this one.
    pub escaped: bool,
    /// How many quotes in a row have just been met.
    pub quotes: nat,
    /// For each open bracket, the level of the place where it was opened.
    pub frames: Seq<nat>,
    /// The levels open at this place, without the key that is being read.
    pub level: nat,
    /// The periods met since the last separator: the parts, but one, of the
    /// key that is being read.
    pub run: nat,
    /// The level of the values under the table header last met.
    pub header: nat,
    /// The open brackets are those of a table header.
    pub in_header: bool,
    /// The statement at hand has had its `=`.
    pub in_value: bool,
    /// The largest number of levels met so far.
    pub deepest: nat,
}

/// The state before the first byte.
pub open spec fn start() -> Scan {
    Scan {
        lex: Lex::Code,
        basic: false,
        escaped: false,
        quotes: 0,
        frames: Seq::empty(),
        level: 0,
        run: 0,
        header: 0,
        in_header: false,
        in_value: false,
        deepest: 0,
    }
}

/// The quote that ends the string at hand.
pub open spec fn delimiter(basic: bool) -> u8 {
    if basic {
        0x22
    } else {
        0x27
    }
}

/// The larger of two counts.
pub open spec fn larger(a: nat, b: nat) -> nat {
    if a >= b {
        a
    } else {
        b
    }
}

/// An opening bracket. The first bracket of a statement opens a table
/// header, which starts from level 0; any other opens a value one level
/// below the place it stands at.
pub open spec fn open_bracket(s: Scan, byte: u8) -> Scan {
    let heads = byte == 0x5b && s.frames.len() == 0 && !s.in_value;
    let from = if heads {
        0
    } else {
        s.level
    };
    Scan {
        frames: s.frames.push(from),
        level: from + 1,
        run: 0,
        header: if heads {
            0
        } else {
            s.header
        },
        in_header: s.in_header || heads,
        ..s
    }
}

/// A closing bracket: back to the level where its bracket was opened. The
/// brackets of a table header leave the level of its last part to the
/// statements that follow.
pub open spec fn close_bracket(s: Scan) -> Scan {
    if s.frames.len() == 0 {
        Scan { run: 0, ..s }
    } else {
        let header = if s.in_header {
            larger(s.header, s.level + s.run)
        } else {
            s.header
        };
        let done = s.in_header && s.frames.len() == 1;
        Scan {
            frames: s.frames.drop_last(),
            level: if done {
                header
            } else {
                s.frames.last()
            },
            run: 0,
            header,
            in_header: s.in_header && !done,
            ..s
        }
    }
}

/// A comma ends an entry: what follows stands directly in the brackets
/// around it.
pub open spec fn comma(s: Scan) -> Scan {
    Scan {
        level: if s.frames.len() == 0 {
            s.level
        } else {
            s.frames.last() + 1
        },
        run: 0,
        ..s
    }
}

/// An equals sign ends a key: its value stands below every part of the key
/// but the last.
pub open spec fn equals(s: Scan) -> Scan {
    Scan { level: s.level + s.run, run: 0, in_value: s.in_value || s.frames.len() == 0, ..s }
}

/// The end of a line ends a key, and outside all brackets the statement:
/// the next starts under the table header last met.
pub open spec fn newline(s: Scan) -> Scan {
    if s.frames.len() == 0 {
        Scan { level: s.header, run: 0, in_value: false, ..s }
    } else {
        Scan { run: 0, ..s }
    }
}

/// A byte that stands in no string and no comment.
pub open spec fn structure(s: Scan, byte: u8) -> Scan {
    if byte == 0x5b || byte == 0x7b {
        open_bracket(s, byte)
    } else if byte == 0x5d || byte == 0x7d {
        close_bracket(s)
    } else if byte == 0x2c {
        comma(s)
    } else if byte == 0x3d {
        equals(s)
    } else if byte == 0x2e {
        Scan { run: s.run + 1, ..s }
    } else if byte == 0x0a {
        newline(s)
    } else {
        s
    }
}

/// A byte met outside strings and comments: a quote opens a string, `#` a
/// comment, and anything else counts for the structure.
pub open spec fn code(s: Scan, byte: u8) -> Scan {
    if byte == 0x22 || byte == 0x27 {
        Scan { lex: Lex::Opening, basic: byte == 0x22, escaped: false, quotes: 1, ..s }
    } else if byte == 0x23 {
        Scan { lex: Lex::Comment, ..s }
    } else {
        structure(Scan { lex: Lex::Code, ..s }, byte)
    }
}

/// A byte met inside a string that ends on its line.
pub open spec fn single(s: Scan, byte: u8) -> Scan {
    if s.escaped {
        Scan { lex: Lex::Single, escaped: false, ..s }
    } else if s.basic && byte == 0x5c {
        Scan { lex: Lex::Single, escaped: true, ..s }
    } else if byte == delimiter(s.basic) {
        Scan { lex: Lex::Code, ..s }
    } else if byte == 0x0a {
        newline(Scan { lex: Lex::Code, ..s })
    } else {
        Scan { lex: Lex::Single, ..s }
    }
}

/// A byte met inside a string that ends with three quotes.
pub open spec fn multi(s: Scan, byte: u8) -> Scan {
    if s.escaped {
        Scan { escaped: false, quotes: 0, ..s }
    } else if s.basic && byte == 0x5c {
        Scan { escaped: true, quotes: 0, ..s }
    } else if byte == delimiter(s.basic) {
        if s.quotes >= 2 {
            Scan { lex: Lex::Closing, quotes: 3, ..s }
        } else {
            Scan { quotes: s.quotes + 1, ..s }
        }
    } else {
        Scan { quotes: 0, ..s }
    }
}

/// The scan's state after one more byte, without the count of the deepest
/// place.
pub open spec fn advance(s: Scan, byte: u8) -> Scan {
    match s.lex {
        Lex::Code => code(s, byte),
        Lex::Comment => if byte == 0x0a {
            newline(Scan { lex: Lex::Code, ..s })
        } else {
            s
        },
        Lex::Opening => if byte == delimiter(s.basic) {
            if s.quotes >= 2 {
                Scan { lex: Lex::Multi, escaped: false, quotes: 0, ..s }
            } else {
                Scan { quotes: 2, ..s }
            }
        } else if s.quotes >= 2 {
            code(s, byte)
        } else {
            single(s, byte)
        },
        Lex::Single => single(s, byte),
        Lex::Multi => multi(s, byte),
        Lex::Closing => if byte == delimiter(s.basic) {
            if s.quotes >= 4 {
                Scan { lex: Lex::Code, ..s }
            } else {
                Scan { quotes: s.quotes + 1, ..s }
            }
        } else {
            code(s, byte)
        },
    }
}

/// The scan's state after one more byte.
pub open spec fn step(s: Scan, byte: u8) -> Scan {
    let t = advance(s, byte);
    Scan { deepest: larger(t.deepest, t.level + t.run), ..t }
}

/// The scan's state after all of `bytes`.
pub open spec fn scan(bytes: Seq<u8>) -> Scan
    decreases bytes.len(),
{
    if bytes.len() == 0 {
        start()
    } else {
        step(scan(bytes.drop_last()), bytes.last())
    }
}

/// The deepest nesting of the text.
pub open spec fn nesting(text: &str) -> nat {
    scan(text.spec_bytes()).deepest
}

/// Whether the text nests no deeper than the reader is handed.
pub open spec fn within_depth_limit(text: &str) -> bool {
    nesting(text) <= DEPTH_LIMIT
}

/// No count of the state is larger than `n`, the number of bytes scanned.
pub open spec fn fits(s: Scan, n: nat) -> bool {
    &&& s.level + s.run <= n
    &&& s.header <= n
    &&& s.deepest <= n
    &&& forall|i: int| 0 <= i < s.frames.len() ==> s.frames[i] < n
}

/// The scan as it runs.
struct Scanner {
    lex: Lex,
    basic: bool,
    escaped: bool,
    quotes: usize,
    frames: Vec<usize>,
    level: usize,
    run: usize,
    header: usize,
    in_header: bool,
    in_value: bool,
    deepest: usize,
}

impl View for Scanner {
    type V = Scan;

    closed spec fn view(&self) -> Scan {
        Scan {
            lex: self.lex,
            basic: self.basic,
            escaped: self.escaped,
            quotes: self.quotes as nat,
            frames: self.frames@.map_values(|from: usize| from as nat),
            level: self.level as nat,
            run: self.run as nat,
            header: self.header as nat,
            in_header: self.in_header,
            in_value: self.in_value,
            deepest: self.deepest as nat,
        }
    }
}

impl Scanner {
    fn new() -> (scanner: Self)
        ensures
            scanner@ == start(),
            fits(scanner@, 0),
    {
        let scanner = Scanner {
            lex: Lex::Code,
            basic: false,
            escaped: false,
            quotes: 0,
            frames: Vec::new(),
            level: 0,
            run: 0,
            header: 0,
            in_header: false,
            in_value: false,
            deepest: 0,
        };
        proof {
            assert(scanner@.frames =~= Seq::<nat>::empty());
        }
        scanner
    }

    fn structure(&mut self, byte: u8, Ghost(n): Ghost<nat>)
        requires
            fits(old(self)@, n),
            n < usize::MAX,
            old(self).quotes <= 5,
        ensures
            final(self)@ == structure(old(self)@, byte),
            fits(final(self)@, n + 1),
            final(self).quotes <= 5,
    {
        let open = self.frames.len();
        if byte == 0x5b || byte == 0x7b {
            let heads = byte == 0x5b && open == 0 && !self.in_value;
            let from = if heads {
                0
            } else {
                self.level
            };
            self.frames.push(from);
            self.level = from + 1;
            self.run = 0;
            if heads {
                self.header = 0;
                self.in_header = true;
            }
            proof {
                assert(self@.frames =~= old(self)@.frames.push(from as nat));
            }
        } else if byte == 0x5d || byte == 0x7d {
            if open == 0 {
                self.run = 0;
            } else {
                if self.in_header && self.header < self.level + self.run {
                    self.header = self.level + self.run;
                }
                let from = self.frames[open - 1];
                let done = self.in_header && open == 1;
                self.frames.pop();
                self.level = if done {
                    self.header
                } else {
                    from
                };
                self.run = 0;
                if done {
                    self.in_header = false;
                }
                proof {
                    assert(self@.frames =~= old(self)@.frames.drop_last());
                    assert(old(self)@.frames.last() == from);
                }
            }
        } else if byte == 0x2c {
            if open > 0 {
                self.level = self.frames[open - 1] + 1;
            }
            self.run = 0;
        } else if byte == 0x3d {
            self.level = self.level + self.run;
            self.run = 0;
            if open == 0 {
                self.in_value = true;
            }
        } else if byte == 0x2e {
            self.run = self.run + 1;
        } else if byte == 0x0a {
            if open == 0 {
                self.level = self.header;
                self.in_value = false;
            }
            self.run = 0;
        }
    }

    fn code(&mut self, byte: u8, Ghost(n): Ghost<nat>)
        requires
            fits(old(self)@, n),
            n < usize::MAX,
            old(self).quotes <= 5,
        ensures
            final(self)@ == code(old(self)@, byte),
            fits(final(self)@, n + 1),
            final(self).quotes <= 5,
    {
        if byte == 0x22 || byte == 0x27 {
            self.lex = Lex::Opening;
            self.basic = byte == 0x22;
            self.escaped = false;
            self.quotes = 1;
        } else if byte == 0x23 {
            self.lex = Lex::Comment;
        } else {
            self.lex = Lex::Code;
            self.structure(byte, Ghost(n));
        }
    }

    fn single(&mut self, byte: u8, Ghost(n): Ghost<nat>)
        requires
            fits(old(self)@, n),
            n < usize::MAX,
            old(self).quotes <= 5,
        ensures
            final(self)@ == single(old(self)@, byte),
            fits(final(self)@, n + 1),
            final(self).quotes <= 5,
    {
        let delimiter: u8 = if self.basic {
            0x22
        } else {
            0x27
        };
        if self.escaped {
            self.lex = Lex::Single;
            self.escaped = false;
        } else if self.basic && byte == 0x5c {
            self.lex = Lex::Single;
            self.escaped = true;
        } else if byte == delimiter {
            self.lex = Lex::Code;
        } else if byte == 0x0a {
            self.lex = Lex::Code;
            self.structure(byte, Ghost(n));
        } else {
            self.lex = Lex::Single;
        }
    }

    fn multi(&mut self, byte: u8, Ghost(n): Ghost<nat>)
        requires
            fits(old(self)@, n),
            old(self).quotes <= 5,
        ensures
            final(self)@ == multi(old(self)@, byte),
            fits(final(self)@, n + 1),
            final(self).quotes <= 5,
    {
        let delimiter: u8 = if self.basic {
            0x22
        } else {
            0x27
        };
        if self.escaped {
            self.escaped = false;
            self.quotes = 0;
        } else if self.basic && byte == 0x5c {
            self.escaped = true;
            self.quotes = 0;
        } else if byte == delimiter {
            if self.quotes >= 2 {
                self.lex = Lex::Closing;
                self.quotes = 3;
            } else {
                self.quotes = self.quotes + 1;
            }
        } else {
            self.quotes = 0;
        }
    }

    fn step(&mut self, byte: u8, Ghost(n): Ghost<nat>)
        requires
            fits(old(self)@, n),
            n < usize::MAX,
            old(self).quotes <= 5,
        ensures
            final(self)@ == step(old(self)@, byte),
            fits(final(self)@, n + 1),
            final(self).quotes <= 5,
    {
        let delimiter: u8 = if self.basic {
            0x22
        } else {
            0x27
        };
        match self.lex {
            Lex::Code => self.code(byte, Ghost(n)),
            Lex::Comment => {
                if byte == 0x0a {
                    self.lex = Lex::Code;
                    self.structure(byte, Ghost(n));
                }
            },
            Lex::Opening => {
                if byte == delimiter {
                    if self.quotes >= 2 {
                        self.lex = Lex::Multi;
                        self.escaped = false;
                        self.quotes = 0;
                    } else {
                        self.quotes = 2;
                    }
                } else if self.quotes >= 2 {
                    self.code(byte, Ghost(n));
                } else {
                    self.single(byte, Ghost(n));
                }
            },
            Lex::Single => self.single(byte, Ghost(n)),
            Lex::Multi => self.multi(byte, Ghost(n)),
            Lex::Closing => {
                if byte == delimiter {
                    if self.quotes >= 4 {
                        self.lex = Lex::Code;
                    } else {
                        self.quotes = self.quotes + 1;
                    }
                } else {
                    self.code(byte, Ghost(n));
                }
            },
        }
        if self.deepest < self.level + self.run {
            self.deepest = self.level + self.run;
        }
    }
}

/// Scans `text` and says whether it nests no deeper than `DEPTH_LIMIT`.
pub fn is_shallow(text: &str) -> (shallow: bool)
    ensures
        shallow == within_depth_limit(text),
{
    let bytes = text.as_bytes();
    let mut scanner = Scanner::new();
    let mut i: usize = 0;
    proof {
        assert(bytes@.take(0) =~= Seq::<u8>::empty());
    }
    while i < bytes.len()
        invariant
            i <= bytes.len(),
            bytes@ == text.spec_bytes(),
            scanner@ == scan(bytes@.take(i as int)),
            fits(scanner@, i as nat),
            scanner.quotes <= 5,
        decreases bytes.len() - i,
    {
        proof {
            assert(bytes@.take(i + 1).drop_last() =~= bytes@.take(i as int));
        }
        scanner.step(bytes[i], Ghost(i as nat));
        i = i + 1;
    }
    proof {
        assert(bytes@.take(i as int) =~= bytes@);
    }
    scanner.deepest <= DEPTH_LIMIT
}

} // verus!
