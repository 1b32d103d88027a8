//! How deep a TOML text nests, found without building anything.
//!
//! A TOML document nests in three ways: arrays and inline tables, which are
//! bracketed; the parts of a dotted key, each of which is a table inside the one
//! before; and the parts of a table's name. The scan below reads the text once,
//! byte by byte, and keeps an upper bound on how many such levels are open. It
//! tells strings and comments from the rest as TOML does, because a bracket, a
//! dot or an equals sign inside them is only text.

use vstd::prelude::*;

verus! {

/// Where in the text the scan is, as far as strings and comments go.
#[derive(Clone, Copy, Debug, PartialEq, Eq, Structural)]
pub enum TomlMode {
    /// Outside every string and comment: brackets, dots, commas, equals signs and
    /// line ends mean what they say.
    Plain,
    /// In a comment, which runs to the end of the line.
    Comment,
    /// Just behind a quotation mark that opened a string.
    QuoteOpen,
    /// In a basic string.
    Basic,
    /// Behind a backslash in a basic string.
    BasicEscape,
    /// Behind two quotation marks: an empty string, or the first two marks of a
    /// multi-line string.
    QuotePair,
    /// In a multi-line basic string, behind `quotes` quotation marks in a row.
    MultiBasic {
        /// Quotation marks in a row so far, fewer than three.
        quotes: u8,
    },
    /// Behind a backslash in a multi-line basic string.
    MultiBasicEscape,
    /// Behind the three quotation marks that close a multi-line basic string, and
    /// `extra` more: up to two marks in front of the closing three are content.
    MultiBasicEnd {
        /// Quotation marks beyond the three.
        extra: u8,
    },
    /// Just behind an apostrophe that opened a string.
    TickOpen,
    /// In a literal string.
    Literal,
    /// Behind two apostrophes: an empty string, or the first two marks of a
    /// multi-line string.
    TickPair,
    /// In a multi-line literal string, behind `ticks` apostrophes in a row.
    MultiLiteral {
        /// Apostrophes in a row so far, fewer than three.
        ticks: u8,
    },
    /// Behind the three apostrophes that close a multi-line literal string, and
    /// `extra` more.
    MultiLiteralEnd {
        /// Apostrophes beyond the three.
        extra: u8,
    },
}

/// The mode behind `byte`, read outside every string and comment, and whether
/// the byte belongs to the structure of the document.
pub open spec fn plain_mode_after(byte: u8) -> (TomlMode, bool) {
    if byte == 0x22 {
        (TomlMode::QuoteOpen, false)
    } else if byte == 0x27 {
        (TomlMode::TickOpen, false)
    } else if byte == 0x23 {
        (TomlMode::Comment, false)
    } else {
        (TomlMode::Plain, true)
    }
}

/// The mode behind `byte`, read in `mode`, and whether the byte belongs to the
/// structure of the document. A string that is not multi-line ends with its
/// line, as a comment does, and that line end belongs to the structure.
pub open spec fn mode_after(mode: TomlMode, byte: u8) -> (TomlMode, bool) {
    match mode {
        TomlMode::Plain => plain_mode_after(byte),
        TomlMode::Comment => if byte == 0x0a {
            (TomlMode::Plain, true)
        } else {
            (TomlMode::Comment, false)
        },
        TomlMode::QuoteOpen => if byte == 0x22 {
            (TomlMode::QuotePair, false)
        } else if byte == 0x5c {
            (TomlMode::BasicEscape, false)
        } else if byte == 0x0a {
            (TomlMode::Plain, true)
        } else {
            (TomlMode::Basic, false)
        },
        TomlMode::Basic => if byte == 0x22 {
            (TomlMode::Plain, false)
        } else if byte == 0x5c {
            (TomlMode::BasicEscape, false)
        } else if byte == 0x0a {
            (TomlMode::Plain, true)
        } else {
            (TomlMode::Basic, false)
        },
        TomlMode::BasicEscape => (TomlMode::Basic, false),
        TomlMode::QuotePair => if byte == 0x22 {
            (TomlMode::MultiBasic { quotes: 0 }, false)
        } else {
            plain_mode_after(byte)
        },
        TomlMode::MultiBasic { quotes } => if byte == 0x22 {
            if quotes >= 2 {
                (TomlMode::MultiBasicEnd { extra: 0 }, false)
            } else {
                (TomlMode::MultiBasic { quotes: (quotes + 1) as u8 }, false)
            }
        } else if byte == 0x5c {
            (TomlMode::MultiBasicEscape, false)
        } else {
            (TomlMode::MultiBasic { quotes: 0 }, false)
        },
        TomlMode::MultiBasicEscape => (TomlMode::MultiBasic { quotes: 0 }, false),
        TomlMode::MultiBasicEnd { extra } => if byte == 0x22 && extra < 2 {
            (TomlMode::MultiBasicEnd { extra: (extra + 1) as u8 }, false)
        } else {
            plain_mode_after(byte)
        },
        TomlMode::TickOpen => if byte == 0x27 {
            (TomlMode::TickPair, false)
        } else if byte == 0x0a {
            (TomlMode::Plain, true)
        } else {
            (TomlMode::Literal, false)
        },
        TomlMode::Literal => if byte == 0x27 {
            (TomlMode::Plain, false)
        } else if byte == 0x0a {
            (TomlMode::Plain, true)
        } else {
            (TomlMode::Literal, false)
        },
        TomlMode::TickPair => if byte == 0x27 {
            (TomlMode::MultiLiteral { ticks: 0 }, false)
        } else {
            plain_mode_after(byte)
        },
        TomlMode::MultiLiteral { ticks } => if byte == 0x27 {
            if ticks >= 2 {
                (TomlMode::MultiLiteralEnd { extra: 0 }, false)
            } else {
                (TomlMode::MultiLiteral { ticks: (ticks + 1) as u8 }, false)
            }
        } else {
            (TomlMode::MultiLiteral { ticks: 0 }, false)
        },
        TomlMode::MultiLiteralEnd { extra } => if byte == 0x27 && extra < 2 {
            (TomlMode::MultiLiteralEnd { extra: (extra + 1) as u8 }, false)
        } else {
            plain_mode_after(byte)
        },
    }
}

/// What the scan knows behind a part of the text.
pub struct TomlNesting {
    /// Where the scan is as far as strings and comments go.
    pub mode: TomlMode,
    /// Whether a key may stand here: at the start of a line, and behind a bracket
    /// or a comma. Only there does a dot part a key.
    pub in_key: bool,
    /// Whether this line has given a key its value outside every bracket, so that
    /// a bracket on it is no table name.
    pub value_line: bool,
    /// Dots of the key that is being read.
    pub pending: nat,
    /// Levels that the keys have opened whose values are still being read.
    pub keys: nat,
    /// For every bracket that is open, what `keys` was when it opened.
    pub brackets: Seq<nat>,
    /// Levels of the table that the lines belong to: three more than its name has
    /// dots, which is one for each part of the name and two for the array and the
    /// table that the name may stand for.
    pub table: nat,
    /// The most levels that were open at once so far.
    pub deepest: nat,
}

impl TomlNesting {
    /// What is known before any byte was read.
    pub open spec fn start() -> TomlNesting {
        TomlNesting {
            mode: TomlMode::Plain,
            in_key: true,
            value_line: false,
            pending: 0,
            keys: 0,
            brackets: Seq::empty(),
            table: 0,
            deepest: 0,
        }
    }

    /// Levels that are open: those of the table, those of the keys whose values
    /// are being read, the dots of the key that is being read, and the brackets.
    pub open spec fn open_levels(self) -> nat {
        self.table + self.keys + self.pending + self.brackets.len()
    }

    /// The levels behind `byte`, which belongs to the structure.
    ///
    /// A bracket that opens notes the levels of the keys so far; a key may
    /// follow. Outside every bracket, on a line that has given no value, it opens
    /// a table's name, which counts from the root. A bracket that closes goes back to what its partner noted; if it
    /// was the last one on a line that gave no value, the brackets held a table's
    /// name. A dot in a key is a level. An equals sign ends a key, whose parts
    /// are levels until the value ends. A comma ends a value: the levels of the
    /// keys are those of the innermost bracket again. The end of a line outside
    /// every bracket ends everything but the table.
    pub open spec fn structured(self, byte: u8) -> TomlNesting {
        if byte == 0x5b || byte == 0x7b {
            TomlNesting {
                brackets: self.brackets.push(self.keys),
                pending: 0,
                in_key: true,
                table: if self.brackets.len() == 0 && !self.value_line {
                    0
                } else {
                    self.table
                },
                ..self
            }
        } else if byte == 0x5d || byte == 0x7d {
            if self.brackets.len() == 0 {
                TomlNesting { in_key: false, ..self }
            } else if self.brackets.len() == 1 && !self.value_line {
                TomlNesting {
                    brackets: self.brackets.drop_last(),
                    keys: self.brackets.last(),
                    table: self.pending + 3,
                    pending: 0,
                    in_key: false,
                    ..self
                }
            } else {
                TomlNesting {
                    brackets: self.brackets.drop_last(),
                    keys: self.brackets.last(),
                    in_key: false,
                    ..self
                }
            }
        } else if byte == 0x2e {
            if self.in_key {
                TomlNesting { pending: self.pending + 1, ..self }
            } else {
                self
            }
        } else if byte == 0x3d {
            if self.in_key {
                TomlNesting {
                    keys: self.keys + self.pending + 1,
                    pending: 0,
                    in_key: false,
                    value_line: self.value_line || self.brackets.len() == 0,
                    ..self
                }
            } else {
                self
            }
        } else if byte == 0x2c {
            TomlNesting {
                keys: if self.brackets.len() == 0 {
                    0
                } else {
                    self.brackets.last()
                },
                pending: 0,
                in_key: true,
                ..self
            }
        } else if byte == 0x0a {
            if self.brackets.len() == 0 {
                TomlNesting { keys: 0, pending: 0, in_key: true, value_line: false, ..self }
            } else {
                TomlNesting { in_key: true, ..self }
            }
        } else {
            self
        }
    }

    /// What is known behind `byte`.
    pub open spec fn after(self, byte: u8) -> TomlNesting {
        let (mode, structural) = mode_after(self.mode, byte);
        let moved = TomlNesting { mode, ..self };
        let next = if structural {
            moved.structured(byte)
        } else {
            moved
        };
        TomlNesting {
            deepest: if next.open_levels() > next.deepest {
                next.open_levels()
            } else {
                next.deepest
            },
            ..next
        }
    }
}

/// What the scan knows behind `bytes`.
pub open spec fn toml_scan(bytes: Seq<u8>) -> TomlNesting
    decreases bytes.len(),
{
    if bytes.len() == 0 {
        TomlNesting::start()
    } else {
        toml_scan(bytes.drop_last()).after(bytes.last())
    }
}

/// An upper bound on the levels that `bytes`, read as TOML, has open at once:
/// no value of the document lies deeper.
pub open spec fn toml_nesting(bytes: Seq<u8>) -> nat {
    toml_scan(bytes).deepest
}

/// Reading on never lowers the bound.
pub proof fn lemma_nesting_grows(bytes: Seq<u8>, read: int)
    requires
        0 <= read <= bytes.len(),
    ensures
        toml_nesting(bytes.subrange(0, read)) <= toml_nesting(bytes),
    decreases bytes.len() - read,
{
    if read < bytes.len() {
        lemma_nesting_grows(bytes.drop_last(), read);
        assert(bytes.drop_last().subrange(0, read) =~= bytes.subrange(0, read));
    } else {
        assert(bytes.subrange(0, read) =~= bytes);
    }
}

/// The scan at work: what `TomlNesting` says, in machine numbers. It is only
/// kept up for as long as no more than `limit` levels were open.
struct TomlScanner {
    mode: TomlMode,
    in_key: bool,
    value_line: bool,
    pending: usize,
    keys: usize,
    brackets: Vec<usize>,
    table: usize,
    deepest: usize,
}

impl TomlScanner {
    spec fn view(&self) -> TomlNesting {
        TomlNesting {
            mode: self.mode,
            in_key: self.in_key,
            value_line: self.value_line,
            pending: self.pending as nat,
            keys: self.keys as nat,
            brackets: Seq::new(self.brackets@.len(), |i: int| self.brackets@[i] as nat),
            table: self.table as nat,
            deepest: self.deepest as nat,
        }
    }

    /// Nothing that the scan counts is beyond `limit`.
    spec fn within(&self, limit: usize) -> bool {
        &&& self.pending <= limit
        &&& self.keys <= limit
        &&& self.table <= limit
        &&& self.deepest <= limit
        &&& self.brackets@.len() <= limit
        &&& self@.open_levels() <= self@.deepest
        &&& forall|i: int| 0 <= i < self.brackets@.len() ==> self.brackets@[i] <= limit
    }

    fn start() -> (scanner: TomlScanner)
        ensures
            scanner@ == TomlNesting::start(),
            forall|limit: usize| scanner.within(limit),
    {
        let scanner = TomlScanner {
            mode: TomlMode::Plain,
            in_key: true,
            value_line: false,
            pending: 0,
            keys: 0,
            brackets: Vec::new(),
            table: 0,
            deepest: 0,
        };
        proof {
            assert(scanner@.brackets =~= Seq::<nat>::empty());
        }
        scanner
    }

    /// Reads one byte that belongs to the structure. `false` says that a count
    /// would have gone beyond `limit`; the scanner is then of no more use.
    fn structured(&mut self, byte: u8, limit: usize) -> (kept: bool)
        requires
            old(self).within(limit),
            limit < usize::MAX / 4,
        ensures
            kept ==> final(self)@ == old(self)@.structured(byte),
            kept ==> final(self).pending <= limit && final(self).keys <= limit,
            kept ==> final(self).table <= limit && final(self).brackets@.len() <= limit,
            kept ==> final(self).deepest == old(self).deepest,
            kept ==> forall|i: int|
                0 <= i < final(self).brackets@.len() ==> final(self).brackets@[i] <= limit,
            !kept ==> old(self)@.structured(byte).open_levels() > limit,
    {
        let ghost before = self@;
        if byte == 0x5b || byte == 0x7b {
            if self.brackets.len() >= limit {
                return false;
            }
            if self.brackets.len() == 0 && !self.value_line {
                self.table = 0;
            }
            self.brackets.push(self.keys);
            self.pending = 0;
            self.in_key = true;
            proof {
                assert(self@.brackets =~= before.brackets.push(before.keys));
            }
        } else if byte == 0x5d || byte == 0x7d {
            match self.brackets.pop() {
                None => {
                    self.in_key = false;
                    proof {
                        assert(self@.brackets =~= before.brackets);
                    }
                },
                Some(noted) => {
                    self.keys = noted;
                    self.in_key = false;
                    if self.brackets.len() == 0 && !self.value_line {
                        if self.pending + 3 > limit {
                            return false;
                        }
                        self.table = self.pending + 3;
                        self.pending = 0;
                    }
                    proof {
                        assert(self@.brackets =~= before.brackets.drop_last());
                    }
                },
            }
        } else if byte == 0x2e {
            if self.in_key {
                if self.pending >= limit {
                    return false;
                }
                self.pending += 1;
            }
        } else if byte == 0x3d {
            if self.in_key {
                if self.keys + self.pending + 1 > limit {
                    return false;
                }
                self.keys = self.keys + self.pending + 1;
                self.pending = 0;
                self.in_key = false;
                self.value_line = self.value_line || self.brackets.len() == 0;
            }
        } else if byte == 0x2c {
            let count: usize = self.brackets.len();
            self.keys = if count == 0 {
                0
            } else {
                self.brackets[count - 1]
            };
            self.pending = 0;
            self.in_key = true;
        } else if byte == 0x0a {
            if self.brackets.len() == 0 {
                self.keys = 0;
                self.pending = 0;
                self.value_line = false;
            }
            self.in_key = true;
        }
        proof {
            assert(self@.brackets =~= before.structured(byte).brackets);
        }
        true
    }

    /// Reads one byte. `false` says that more than `limit` levels are open behind
    /// it; the scanner is then of no more use.
    fn read(&mut self, byte: u8, limit: usize) -> (kept: bool)
        requires
            old(self).within(limit),
            limit < usize::MAX / 4,
        ensures
            kept ==> final(self)@ == old(self)@.after(byte) && final(self).within(limit),
            !kept ==> old(self)@.after(byte).deepest > limit,
    {
        let (mode, structural) = next_mode(self.mode, byte);
        self.mode = mode;
        if structural {
            if !self.structured(byte, limit) {
                return false;
            }
        }
        let open: usize = self.table + self.keys + self.pending + self.brackets.len();
        if open > limit {
            return false;
        }
        if open > self.deepest {
            self.deepest = open;
        }
        true
    }
}

/// The mode behind `byte`, read in `mode`, and whether the byte belongs to the
/// structure of the document.
pub fn next_mode(mode: TomlMode, byte: u8) -> (next: (TomlMode, bool))
    ensures
        next == mode_after(mode, byte),
{
    let plain = if byte == 0x22 {
        (TomlMode::QuoteOpen, false)
    } else if byte == 0x27 {
        (TomlMode::TickOpen, false)
    } else if byte == 0x23 {
        (TomlMode::Comment, false)
    } else {
        (TomlMode::Plain, true)
    };
    match mode {
        TomlMode::Plain => plain,
        TomlMode::Comment => if byte == 0x0a {
            (TomlMode::Plain, true)
        } else {
            (TomlMode::Comment, false)
        },
        TomlMode::QuoteOpen => if byte == 0x22 {
            (TomlMode::QuotePair, false)
        } else if byte == 0x5c {
            (TomlMode::BasicEscape, false)
        } else if byte == 0x0a {
            (TomlMode::Plain, true)
        } else {
            (TomlMode::Basic, false)
        },
        TomlMode::Basic => if byte == 0x22 {
            (TomlMode::Plain, false)
        } else if byte == 0x5c {
            (TomlMode::BasicEscape, false)
        } else if byte == 0x0a {
            (TomlMode::Plain, true)
        } else {
            (TomlMode::Basic, false)
        },
        TomlMode::BasicEscape => (TomlMode::Basic, false),
        TomlMode::QuotePair => if byte == 0x22 {
            (TomlMode::MultiBasic { quotes: 0 }, false)
        } else {
            plain
        },
        TomlMode::MultiBasic { quotes } => if byte == 0x22 {
            if quotes >= 2 {
                (TomlMode::MultiBasicEnd { extra: 0 }, false)
            } else {
                (TomlMode::MultiBasic { quotes: quotes + 1 }, false)
            }
        } else if byte == 0x5c {
            (TomlMode::MultiBasicEscape, false)
        } else {
            (TomlMode::MultiBasic { quotes: 0 }, false)
        },
        TomlMode::MultiBasicEscape => (TomlMode::MultiBasic { quotes: 0 }, false),
        TomlMode::MultiBasicEnd { extra } => if byte == 0x22 && extra < 2 {
            (TomlMode::MultiBasicEnd { extra: extra + 1 }, false)
        } else {
            plain
        },
        TomlMode::TickOpen => if byte == 0x27 {
            (TomlMode::TickPair, false)
        } else if byte == 0x0a {
            (TomlMode::Plain, true)
        } else {
            (TomlMode::Literal, false)
        },
        TomlMode::Literal => if byte == 0x27 {
            (TomlMode::Plain, false)
        } else if byte == 0x0a {
            (TomlMode::Plain, true)
        } else {
            (TomlMode::Literal, false)
        },
        TomlMode::TickPair => if byte == 0x27 {
            (TomlMode::MultiLiteral { ticks: 0 }, false)
        } else {
            plain
        },
        TomlMode::MultiLiteral { ticks } => if byte == 0x27 {
            if ticks >= 2 {
                (TomlMode::MultiLiteralEnd { extra: 0 }, false)
            } else {
                (TomlMode::MultiLiteral { ticks: ticks + 1 }, false)
            }
        } else {
            (TomlMode::MultiLiteral { ticks: 0 }, false)
        },
        TomlMode::MultiLiteralEnd { extra } => if byte == 0x27 && extra < 2 {
            (TomlMode::MultiLiteralEnd { extra: extra + 1 }, false)
        } else {
            plain
        },
    }
}

/// Whether `bytes`, read as TOML, has more than `limit` levels open at once.
pub fn toml_nests_beyond(bytes: &[u8], limit: usize) -> (beyond: bool)
    requires
        limit < usize::MAX / 4,
    ensures
        beyond == (toml_nesting(bytes@) > limit),
{
    let mut scanner = TomlScanner::start();
    let mut i: usize = 0;
    while i < bytes.len()
        invariant
            i <= bytes@.len(),
            limit < usize::MAX / 4,
            scanner@ == toml_scan(bytes@.subrange(0, i as int)),
            scanner.within(limit),
        decreases bytes@.len() - i,
    {
        proof {
            assert(bytes@.subrange(0, i + 1).drop_last() =~= bytes@.subrange(0, i as int));
            lemma_nesting_grows(bytes@, i + 1);
        }
        if !scanner.read(bytes[i], limit) {
            return true;
        }
        i += 1;
    }
    proof {
        assert(bytes@.subrange(0, i as int) =~= bytes@);
    }
    false
}

} // verus!
