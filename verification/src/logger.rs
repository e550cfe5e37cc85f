//! The ring-buffered text logger. Messages carry a timestamp as plain text,
//! a severity, optional filters and the message body; the buffer holds them
//! in arrival order. The shell around the engine reads the clock and hands
//! the timestamp in, and writes flushed text out to wherever logs live —
//! this module owns the buffer, the log-line format and its parser.

use vstd::prelude::*;
use vstd::string::StringExecFns;
use crate::error::EngineError;

verus! {

/// The severity of a log message; `CUSTOM` carries its own tag text.
#[derive(Debug, Clone, Copy, PartialEq, Eq, Structural)]
#[allow(non_camel_case_types)]
pub enum TEPILogType {
    NORMAL,
    WARN,
    ERROR,
    CUSTOM,
}

/// One log message: a `HH:MM:SS` timestamp as text, the severity, the
/// filter tags, the body, and the custom tag when the severity is
/// `CUSTOM`.
#[derive(Debug, Clone)]
pub struct TEPILogMsg {
    pub timestamp: String,
    pub log_type: TEPILogType,
    pub filters: Vec<String>,
    pub message: String,
    pub log_type_custom: Option<String>,
}

/// The text of a severity: its fixed name, or the custom tag.
pub open spec fn spec_log_type_str(log_type: TEPILogType, flag: Option<String>) -> Seq<char> {
    match log_type {
        TEPILogType::NORMAL => "NORMAL"@,
        TEPILogType::WARN => "WARN"@,
        TEPILogType::ERROR => "ERROR"@,
        TEPILogType::CUSTOM => flag.unwrap()@,
    }
}

/// The severity a tag names: one of the three fixed names, or `CUSTOM` for
/// anything else.
pub open spec fn spec_match_log_type(s: Seq<char>) -> TEPILogType {
    if s == "NORMAL"@ {
        TEPILogType::NORMAL
    } else if s == "WARN"@ {
        TEPILogType::WARN
    } else if s == "ERROR"@ {
        TEPILogType::ERROR
    } else {
        TEPILogType::CUSTOM
    }
}

/// The bracketed blocks of the filter tags: `[a][b]` for tags `a, b`, built
/// from the back.
pub open spec fn spec_brackets(fs: Seq<Seq<char>>) -> Seq<char>
    decreases fs.len(),
{
    if fs.len() == 0 {
        Seq::empty()
    } else {
        spec_brackets(fs.drop_last()) + seq!['['] + fs.last() + seq![']']
    }
}

/// The filter part of a log line: `[]` with no tags, else the bracketed
/// blocks.
pub open spec fn spec_fmt_filters(fs: Seq<Seq<char>>) -> Seq<char> {
    if fs.len() == 0 {
        seq!['[', ']']
    } else {
        spec_brackets(fs)
    }
}

/// The views of a list of strings.
pub open spec fn views_of(fs: Seq<String>) -> Seq<Seq<char>> {
    fs.map_values(|s: String| s@)
}

impl TEPILogMsg {
    /// The filter part of this message's log line.
    #[verifier::loop_isolation(false)]
    pub fn fmt_log_filters(&self) -> (r: String)
        ensures
            r@ == spec_fmt_filters(views_of(self.filters@)),
    {
        proof {
            reveal_strlit("[]");
            reveal_strlit("[");
            reveal_strlit("]");
        }
        if self.filters.len() == 0 {
            let r = String::from_str("[]");
            proof {
                assert(r@ =~= seq!['[', ']']);
            }
            r
        } else {
            let mut r = String::new();
            let mut i: usize = 0;
            proof {
                assert(r@ =~= spec_brackets(views_of(self.filters@).take(0)));
            }
            while i < self.filters.len()
                invariant
                    i <= self.filters@.len(),
                    r@ == spec_brackets(views_of(self.filters@).take(i as int)),
                decreases self.filters@.len() - i,
            {
                r.append("[");
                r.append(self.filters[i].as_str());
                r.append("]");
                proof {
                    let fs = views_of(self.filters@);
                    assert(fs[i as int] == self.filters@[i as int]@);
                    assert(fs.take(i + 1).drop_last() =~= fs.take(i as int));
                    assert(fs.take(i + 1).last() == fs[i as int]);
                    assert(r@ =~= spec_brackets(fs.take(i + 1)));
                }
                i = i + 1;
            }
            proof {
                assert(views_of(self.filters@).take(self.filters@.len() as int) =~= views_of(
                    self.filters@,
                ));
            }
            r
        }
    }

    /// This message's full log line:
    /// `\n[HH:MM:SS][TYPE][filter1][filter2]: message`, with the filter part
    /// `[]` when there are no tags.
    pub fn fmt_log_string(&self) -> (r: String)
        requires
            self.log_type == TEPILogType::CUSTOM ==> self.log_type_custom is Some,
        ensures
            r@ == "\n["@ + self.timestamp@ + "]["@ + spec_log_type_str(
                self.log_type,
                self.log_type_custom,
            ) + "]"@ + spec_fmt_filters(views_of(self.filters@)) + ": "@ + self.message@,
    {
        let log_type: String = TEPILogger::log_type_str(self.log_type, self.log_type_custom.clone());
        let filters: String = self.fmt_log_filters();
        let mut r = String::new();
        r.append("\n[");
        r.append(self.timestamp.as_str());
        r.append("][");
        r.append(log_type.as_str());
        r.append("]");
        r.append(filters.as_str());
        r.append(": ");
        r.append(self.message.as_str());
        proof {
            reveal_strlit("\n[");
            reveal_strlit("][");
            reveal_strlit("]");
            reveal_strlit(": ");
            assert(r@ =~= "\n["@ + self.timestamp@ + "]["@ + spec_log_type_str(
                self.log_type,
                self.log_type_custom,
            ) + "]"@ + spec_fmt_filters(views_of(self.filters@)) + ": "@ + self.message@);
        }
        r
    }

    /// The severity a tag names, `CUSTOM` for any unknown tag.
    pub fn match_log_type(s: String) -> (r: TEPILogType)
        ensures
            r == spec_match_log_type(s@),
    {
        let normal = String::from_str("NORMAL");
        let warn = String::from_str("WARN");
        let error = String::from_str("ERROR");
        if s == normal {
            TEPILogType::NORMAL
        } else if s == warn {
            TEPILogType::WARN
        } else if s == error {
            TEPILogType::ERROR
        } else {
            TEPILogType::CUSTOM
        }
    }
}

/// One step at a time, the scanner of a log line, from character `i` on:
/// text between brackets accumulates into the current word, text outside
/// brackets into the message body; a closing bracket finishes the current
/// word, and an opening bracket met inside a word first finishes that word.
/// The result is the finished words and the message body.
pub open spec fn scan(
    chars: Seq<char>,
    i: int,
    inside: bool,
    curr: Seq<char>,
    words: Seq<Seq<char>>,
    msg: Seq<char>,
) -> (Seq<Seq<char>>, Seq<char>)
    decreases chars.len() - i,
{
    if i < 0 || i >= chars.len() {
        (words, msg)
    } else {
        let c = chars[i];
        if c == '[' {
            if inside && curr.len() > 0 {
                scan(chars, i + 1, true, Seq::empty(), words.push(curr), msg)
            } else {
                scan(chars, i + 1, true, curr, words, msg)
            }
        } else if c == ']' {
            if inside {
                scan(chars, i + 1, false, Seq::empty(), words.push(curr), msg)
            } else {
                scan(chars, i + 1, false, curr, words, msg)
            }
        } else {
            if inside {
                scan(chars, i + 1, true, curr.push(c), words, msg)
            } else {
                scan(chars, i + 1, false, curr, words, msg.push(c))
            }
        }
    }
}

/// The words and the message body of a log line: its scan from a fresh
/// state.
pub open spec fn spec_scan_line(chars: Seq<char>) -> (Seq<Seq<char>>, Seq<char>) {
    scan(chars, 0, false, Seq::empty(), Seq::empty(), Seq::empty())
}

impl TEPILogMsg {
    /// Reads one log line back into a message: the first bracketed word is
    /// the timestamp, the second the severity tag — kept as the custom tag
    /// when it names no fixed severity — the remaining words are the filter
    /// tags in reverse order, and the unbracketed text is the body. A line
    /// without at least the two leading words is refused rather than read
    /// out of bounds.
    #[verifier::loop_isolation(false)]
    pub fn read_msg(msg: String) -> (r: Result<TEPILogMsg, EngineError>)
        ensures
            ({
                let (w, m) = spec_scan_line(msg@);
                &&& w.len() < 2 ==> r == Err::<TEPILogMsg, EngineError>(
                    EngineError::DegenerateInput,
                )
                &&& w.len() >= 2 ==> {
                    &&& r is Ok
                    &&& r.unwrap().timestamp@ == w[0]
                    &&& r.unwrap().log_type == spec_match_log_type(w[1])
                    &&& (spec_match_log_type(w[1]) == TEPILogType::CUSTOM ==> (r.unwrap().log_type_custom matches Some(f)
                        && f@ == w[1]))
                    &&& (spec_match_log_type(w[1]) != TEPILogType::CUSTOM
                        ==> r.unwrap().log_type_custom is None)
                    &&& views_of(r.unwrap().filters@) == w.subrange(2, w.len() as int).reverse()
                    &&& r.unwrap().message@ == m
                }
            }),
    {
        let len: usize = msg.as_str().unicode_len();
        let mut words: Vec<String> = Vec::new();
        let mut log_msg: String = String::new();
        let mut inside_bracket: bool = false;
        let mut curr_word: String = String::new();
        let mut i: usize = 0;
        proof {
            assert(views_of(words@) =~= Seq::<Seq<char>>::empty());
        }
        // walk the line character by character
        while i < len
            invariant
                i <= len,
                len == msg@.len(),
                scan(msg@, i as int, inside_bracket, curr_word@, views_of(words@), log_msg@)
                    == spec_scan_line(msg@),
            decreases len - i,
        {
            let ghost before = (inside_bracket, curr_word@, views_of(words@), log_msg@);
            let c: char = msg.as_str().get_char(i);
            let piece: &str = msg.as_str().substring_char(i, i + 1);
            proof {
                assert(piece@ =~= seq![msg@[i as int]]);
            }
            if c == '[' {
                if inside_bracket {
                    if !curr_word.as_str().is_empty() {
                        words.push(curr_word);
                        curr_word = String::new();
                    }
                }
                inside_bracket = true;
            } else if c == ']' {
                if inside_bracket {
                    words.push(curr_word);
                    curr_word = String::new();
                    inside_bracket = false;
                }
            } else {
                if inside_bracket {
                    curr_word.append(piece);
                } else {
                    log_msg.append(piece);
                }
            }
            proof {
                assert(before.1 + piece@ =~= before.1.push(msg@[i as int]));
                assert(before.3 + piece@ =~= before.3.push(msg@[i as int]));
                if before.0 && msg@[i as int] == '[' && before.1.len() > 0 {
                    assert(views_of(words@) =~= before.2.push(before.1));
                } else if before.0 && msg@[i as int] == ']' {
                    assert(views_of(words@) =~= before.2.push(before.1));
                }
                assert(scan(msg@, i + 1, inside_bracket, curr_word@, views_of(words@), log_msg@)
                    == scan(msg@, i as int, before.0, before.1, before.2, before.3));
            }
            i = i + 1;
        }
        proof {
            assert(scan(msg@, len as int, inside_bracket, curr_word@, views_of(words@), log_msg@)
                == (views_of(words@), log_msg@));
        }
        let ghost w = spec_scan_line(msg@).0;
        if words.len() < 2 {
            return Err(EngineError::DegenerateInput);
        }
        // gather the filters, if any, from the back of the word list
        let mut filters: Vec<String> = Vec::new();
        proof {
            assert(w == views_of(words@));
            assert(views_of(words@) =~= w.take(words@.len() as int));
            assert(views_of(filters@) =~= w.subrange(
                words@.len() as int,
                w.len() as int,
            ).reverse());
        }
        while words.len() > 2
            invariant
                2 <= words@.len() <= w.len(),
                views_of(words@) == w.take(words@.len() as int),
                views_of(filters@) == w.subrange(words@.len() as int, w.len() as int).reverse(),
            decreases words@.len(),
        {
            let ghost n0 = words@.len() as int;
            let ghost old_words = words@;
            let ghost old_filters = filters@;
            let popped: String = match words.pop() {
                Some(s) => s,
                None => String::new(),
            };
            proof {
                assert(popped == old_words[n0 - 1]);
                assert(popped@ == views_of(old_words)[n0 - 1]);
                assert(popped@ == w[n0 - 1]);
            }
            filters.push(popped);
            proof {
                let len_w = w.len() as int;
                assert(views_of(words@) =~= w.take(n0 - 1));
                let target = w.subrange(n0 - 1, len_w).reverse();
                assert forall|k: int| 0 <= k < target.len() implies views_of(filters@)[k]
                    == target[k] by {
                    assert(target[k] == w[len_w - 1 - k]);
                    if k < len_w - n0 {
                        assert(views_of(filters@)[k] == views_of(old_filters)[k]);
                        assert(views_of(old_filters)[k] == w.subrange(n0, len_w).reverse()[k]);
                        assert(w.subrange(n0, len_w).reverse()[k] == w[len_w - 1 - k]);
                    } else {
                        assert(views_of(filters@)[k] == popped@);
                    }
                }
                assert(views_of(filters@) =~= target);
            }
        }
        // now only the severity tag and the timestamp are left
        let ghost w2 = words@;
        let log_type_word: String = match words.pop() {
            Some(s) => s,
            None => String::new(),
        };
        proof {
            assert(log_type_word == w2[1]);
            assert(log_type_word@ == views_of(w2)[1]);
            assert(views_of(w2)[1] == w[1]);
        }
        let log_type: TEPILogType = TEPILogMsg::match_log_type(log_type_word.clone());
        let log_type_c: Option<String> = if log_type == TEPILogType::CUSTOM {
            Some(log_type_word)
        } else {
            None
        };
        let time: String = match words.pop() {
            Some(s) => s,
            None => String::new(),
        };
        proof {
            assert(time == w2[0]);
            assert(time@ == views_of(w2)[0]);
            assert(views_of(w2)[0] == w[0]);
            assert(log_type == spec_match_log_type(w[1]));
        }
        Ok(
            TEPILogMsg {
                timestamp: time,
                filters,
                log_type,
                log_type_custom: log_type_c,
                message: log_msg,
            },
        )
    }
}

/// The engine's logger: a bounded buffer of messages in arrival order,
/// flushed by the shell once it runs past its nominal size.
pub struct TEPILogger {
    buffer: Vec<TEPILogMsg>,
    name: String,
    file_location: String,
    buffer_amount: u16,
    console_log: bool,
}

impl View for TEPILogger {
    type V = Seq<TEPILogMsg>;

    /// The buffered messages, oldest first.
    closed spec fn view(&self) -> Seq<TEPILogMsg> {
        self.buffer@
    }
}

impl TEPILogger {
    /// The logger's name.
    pub closed spec fn spec_name(&self) -> String {
        self.name
    }

    /// Where the shell flushes this log to.
    pub closed spec fn spec_file_location(&self) -> String {
        self.file_location
    }

    /// The nominal buffer size before a flush is due.
    pub closed spec fn spec_buffer_amount(&self) -> u16 {
        self.buffer_amount
    }

    /// Whether log lines are echoed to the console.
    pub closed spec fn spec_console_log(&self) -> bool {
        self.console_log
    }

    /// The fields the buffer operations leave alone.
    pub open spec fn same_config(&self, other: &TEPILogger) -> bool {
        &&& self.spec_name() == other.spec_name()
        &&& self.spec_file_location() == other.spec_file_location()
        &&& self.spec_buffer_amount() == other.spec_buffer_amount()
        &&& self.spec_console_log() == other.spec_console_log()
    }

    /// A fresh logger with an empty buffer; the nominal buffer size
    /// defaults to 16 when none is given.
    pub fn new(name: String, fl: String, buffer: Option<u16>, console_log: bool) -> (l: TEPILogger)
        ensures
            l@ == Seq::<TEPILogMsg>::empty(),
            l.spec_name() == name,
            l.spec_file_location() == fl,
            l.spec_buffer_amount() == (match buffer {
                Some(b) => b,
                None => 16u16,
            }),
            l.spec_console_log() == console_log,
    {
        let b: u16 = match buffer {
            Some(b) => b,
            None => 16,
        };
        let l = TEPILogger {
            buffer: Vec::new(),
            name,
            file_location: fl,
            buffer_amount: b,
            console_log,
        };
        proof {
            assert(l@ =~= Seq::<TEPILogMsg>::empty());
        }
        l
    }

    /// The number of buffered messages.
    pub fn len(&self) -> (n: usize)
        ensures
            n == self@.len(),
    {
        self.buffer.len()
    }

    /// Getter for the nominal buffer size before a flush is due.
    pub fn buffer_amount(&self) -> (n: u16)
        ensures
            n == self.spec_buffer_amount(),
    {
        self.buffer_amount
    }

    /// Appends a message built from the given parts: absent filters mean no
    /// tags, and the flag becomes the custom tag.
    pub fn log(
        &mut self,
        log_type: TEPILogType,
        message: String,
        filters: Option<Vec<String>>,
        flag: Option<String>,
        timestamp: String,
    )
        ensures
            final(self).same_config(old(self)),
            final(self)@.len() == old(self)@.len() + 1,
            final(self)@.take(old(self)@.len() as int) == old(self)@,
            ({
                let m = final(self)@.last();
                &&& m.timestamp == timestamp
                &&& m.log_type == log_type
                &&& m.message == message
                &&& m.log_type_custom == flag
                &&& views_of(m.filters@) == (match filters {
                    Some(f) => views_of(f@),
                    None => Seq::<Seq<char>>::empty(),
                })
            }),
    {
        let f: Vec<String> = match filters {
            Some(f) => f,
            None => Vec::new(),
        };
        let msg = TEPILogMsg {
            timestamp,
            log_type,
            filters: f,
            message,
            log_type_custom: flag,
        };
        self.buffer.push(msg);
        proof {
            assert(self@.take(old(self)@.len() as int) =~= old(self)@);
            assert(views_of(Seq::<String>::empty()) =~= Seq::<Seq<char>>::empty());
        }
    }

    /// Appends a `NORMAL` message.
    pub fn log_normal(&mut self, message: String, filters: Option<Vec<String>>, timestamp: String)
        ensures
            final(self).same_config(old(self)),
            final(self)@.len() == old(self)@.len() + 1,
            final(self)@.take(old(self)@.len() as int) == old(self)@,
            final(self)@.last().log_type == TEPILogType::NORMAL,
            final(self)@.last().timestamp == timestamp,
            final(self)@.last().message == message,
            final(self)@.last().log_type_custom is None,
    {
        self.log(TEPILogType::NORMAL, message, filters, None, timestamp)
    }

    /// Appends a `WARN` message.
    pub fn log_warn(&mut self, message: String, filters: Option<Vec<String>>, timestamp: String)
        ensures
            final(self).same_config(old(self)),
            final(self)@.len() == old(self)@.len() + 1,
            final(self)@.take(old(self)@.len() as int) == old(self)@,
            final(self)@.last().log_type == TEPILogType::WARN,
            final(self)@.last().timestamp == timestamp,
            final(self)@.last().message == message,
            final(self)@.last().log_type_custom is None,
    {
        self.log(TEPILogType::WARN, message, filters, None, timestamp)
    }

    /// Appends an `ERROR` message.
    pub fn log_error(&mut self, message: String, filters: Option<Vec<String>>, timestamp: String)
        ensures
            final(self).same_config(old(self)),
            final(self)@.len() == old(self)@.len() + 1,
            final(self)@.take(old(self)@.len() as int) == old(self)@,
            final(self)@.last().log_type == TEPILogType::ERROR,
            final(self)@.last().timestamp == timestamp,
            final(self)@.last().message == message,
            final(self)@.last().log_type_custom is None,
    {
        self.log(TEPILogType::ERROR, message, filters, None, timestamp)
    }

    /// Appends a message under a custom tag, which appears in the log line
    /// where the severity name would.
    pub fn log_custom(
        &mut self,
        message: String,
        filters: Option<Vec<String>>,
        flag: String,
        timestamp: String,
    )
        ensures
            final(self).same_config(old(self)),
            final(self)@.len() == old(self)@.len() + 1,
            final(self)@.take(old(self)@.len() as int) == old(self)@,
            final(self)@.last().log_type == TEPILogType::CUSTOM,
            final(self)@.last().timestamp == timestamp,
            final(self)@.last().message == message,
            final(self)@.last().log_type_custom == Some(flag),
    {
        self.log(TEPILogType::CUSTOM, message, filters, Some(flag), timestamp)
    }

    /// The text of a severity: its fixed name, or the custom tag, which
    /// must be present for `CUSTOM`.
    pub fn log_type_str(log_type: TEPILogType, flag: Option<String>) -> (r: String)
        requires
            log_type == TEPILogType::CUSTOM ==> flag is Some,
        ensures
            r@ == spec_log_type_str(log_type, flag),
    {
        match log_type {
            TEPILogType::NORMAL => String::from_str("NORMAL"),
            TEPILogType::WARN => String::from_str("WARN"),
            TEPILogType::ERROR => String::from_str("ERROR"),
            TEPILogType::CUSTOM => match flag {
                Some(s) => s,
                None => String::new(),  // unreachable under the requires
            },
        }
    }

    /// Appends an already-built message to the back of the buffer.
    pub fn push(&mut self, msg: TEPILogMsg)
        ensures
            final(self).same_config(old(self)),
            final(self)@ == old(self)@.push(msg),
    {
        self.buffer.push(msg);
    }

    /// Removes and returns the oldest message, or nothing from an empty
    /// buffer.
    pub fn pop(&mut self) -> (r: Option<TEPILogMsg>)
        ensures
            final(self).same_config(old(self)),
            old(self)@.len() > 0 ==> {
                &&& r == Some(old(self)@[0])
                &&& final(self)@ == old(self)@.drop_first()
            },
            old(self)@.len() == 0 ==> {
                &&& r is None
                &&& final(self)@ == old(self)@
            },
    {
        if self.buffer.len() > 0 {
            let m = self.buffer.remove(0);
            proof {
                assert(self@ =~= old(self)@.drop_first());
            }
            Some(m)
        } else {
            None
        }
    }
}

} // verus!
