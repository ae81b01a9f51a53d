//! The error value, its kind taxonomy, and the propagation operations.

use std::io::Write;
use vstd::prelude::*;

verus! {

/// Information about a location in a source file, supplied explicitly by the
/// call site that participates in error propagation.
#[derive(Debug, Clone, Copy, PartialEq)]
pub struct ConstLocation {
    /// The file of the location.
    pub file: &'static str,
    /// The line of the location.
    pub line: u32,
    /// The column of the location.
    pub column: u32,
}

impl ConstLocation {
    /// Creates a new [`ConstLocation`] using the given file, line and column.
    pub fn new(file: &'static str, line: u32, column: u32) -> (loc: ConstLocation)
        ensures
            loc.file == file,
            loc.line == line,
            loc.column == column,
    {
        ConstLocation { file, line, column }
    }
}

/// The different error kinds that can occur.
#[derive(Debug, PartialEq)]
pub enum ErrorType {
    /// Wraps a foreign error that is not part of this taxonomy, by its
    /// textual rendering.
    Internal(String),
    /// An expected value was absent.
    NoneOption,
    /// An index was outside of the valid range of a sequence.
    IndexOutOfBounds(usize, usize),
    /// The range was larger than the sequence.
    RangeOutOfBounds(usize, usize, usize),
    /// The given range is malformed (`end < start`, or an inclusive range
    /// whose end cannot be converted to an exclusive one).
    InvalidRange,
    /// An ad hoc description of an error.
    Message(String),
    /// A caller-defined error with a numeric code, a name and a message.
    Custom {
        /// A code used for storing caller-defined information.
        code: u32,
        /// The name of the error.
        name: String,
        /// The message of the error.
        message: String,
    },
}

/// The character for a single decimal digit.
pub open spec fn digit_char(d: nat) -> char {
    if d == 0 {
        '0'
    } else if d == 1 {
        '1'
    } else if d == 2 {
        '2'
    } else if d == 3 {
        '3'
    } else if d == 4 {
        '4'
    } else if d == 5 {
        '5'
    } else if d == 6 {
        '6'
    } else if d == 7 {
        '7'
    } else if d == 8 {
        '8'
    } else {
        '9'
    }
}

/// The decimal rendering of a number, most significant digit first.
pub open spec fn dec_digits(n: nat) -> Seq<char>
    decreases n,
{
    if n < 10 {
        seq![digit_char(n)]
    } else {
        dec_digits(n / 10).push(digit_char(n % 10))
    }
}

fn digit_str(d: u8) -> (s: &'static str)
    requires
        d < 10,
    ensures
        s@ == seq![digit_char(d as nat)],
{
    proof {
        reveal_strlit("0");
        reveal_strlit("1");
        reveal_strlit("2");
        reveal_strlit("3");
        reveal_strlit("4");
        reveal_strlit("5");
        reveal_strlit("6");
        reveal_strlit("7");
        reveal_strlit("8");
        reveal_strlit("9");
    }
    let s: &'static str = if d == 0 {
        "0"
    } else if d == 1 {
        "1"
    } else if d == 2 {
        "2"
    } else if d == 3 {
        "3"
    } else if d == 4 {
        "4"
    } else if d == 5 {
        "5"
    } else if d == 6 {
        "6"
    } else if d == 7 {
        "7"
    } else if d == 8 {
        "8"
    } else {
        "9"
    };
    proof {
        assert(s@ =~= seq![digit_char(d as nat)]);
    }
    s
}

/// Renders a number in decimal.
pub fn u64_to_string(n: u64) -> (s: String)
    ensures
        s@ == dec_digits(n as nat),
    decreases n,
{
    if n < 10 {
        digit_str(n as u8).to_owned()
    } else {
        let mut s = u64_to_string(n / 10);
        s.append(digit_str((n % 10) as u8));
        proof {
            assert(s@ =~= dec_digits(n as nat));
        }
        s
    }
}

impl ErrorType {
    /// The text [`ErrorType::format`] renders this kind to.
    pub open spec fn format_spec(&self) -> Seq<char> {
        match self {
            ErrorType::Internal(msg) => msg@,
            ErrorType::NoneOption => "Option was none"@,
            ErrorType::IndexOutOfBounds(idx, len) => "Index "@ + dec_digits(*idx as nat)
                + " was outside of the range 0.."@ + dec_digits(*len as nat),
            ErrorType::RangeOutOfBounds(start, end, len) => "Range "@ + dec_digits(*start as nat)
                + ".."@ + dec_digits(*end as nat) + " was larger than the array range 0.."@
                + dec_digits(*len as nat),
            ErrorType::InvalidRange => "The provided range was invalid (end < start or X..=usize::MAX)"@,
            ErrorType::Message(msg) => msg@,
            ErrorType::Custom { message, .. } => message@,
        }
    }

    /// The name [`ErrorType::name`] returns for this kind.
    pub open spec fn name_spec(&self) -> Seq<char> {
        match self {
            ErrorType::Internal(_) => "WrappedInternal"@,
            ErrorType::NoneOption => "NoneOption"@,
            ErrorType::IndexOutOfBounds(_, _) => "IndexOutOfBounds"@,
            ErrorType::RangeOutOfBounds(_, _, _) => "RangeOutOfBounds"@,
            ErrorType::InvalidRange => "InvalidRange"@,
            ErrorType::Message(_) => "Message"@,
            ErrorType::Custom { name, .. } => name@,
        }
    }

    /// Formats the error kind into a human-readable message.
    pub fn format(self) -> (r: String)
        ensures
            r@ == self.format_spec(),
    {
        match self {
            ErrorType::Internal(msg) => msg,
            ErrorType::NoneOption => "Option was none".to_owned(),
            ErrorType::IndexOutOfBounds(idx, len) => {
                let mut s = "Index ".to_owned();
                s.append(u64_to_string(idx as u64).as_str());
                s.append(" was outside of the range 0..");
                s.append(u64_to_string(len as u64).as_str());
                proof {
                    assert(s@ =~= "Index "@ + dec_digits(idx as nat)
                        + " was outside of the range 0.."@ + dec_digits(len as nat));
                }
                s
            },
            ErrorType::RangeOutOfBounds(start, end, len) => {
                let mut s = "Range ".to_owned();
                s.append(u64_to_string(start as u64).as_str());
                s.append("..");
                s.append(u64_to_string(end as u64).as_str());
                s.append(" was larger than the array range 0..");
                s.append(u64_to_string(len as u64).as_str());
                proof {
                    assert(s@ =~= "Range "@ + dec_digits(start as nat) + ".."@
                        + dec_digits(end as nat) + " was larger than the array range 0.."@
                        + dec_digits(len as nat));
                }
                s
            },
            ErrorType::InvalidRange => {
                "The provided range was invalid (end < start or X..=usize::MAX)".to_owned()
            },
            ErrorType::Message(msg) => msg,
            ErrorType::Custom { message, .. } => message,
        }
    }

    /// Returns the name of the `ErrorType` that is included in the trace.
    pub fn name(&self) -> (r: &str)
        ensures
            r@ == self.name_spec(),
    {
        match self {
            ErrorType::Internal(_) => "WrappedInternal",
            ErrorType::NoneOption => "NoneOption",
            ErrorType::IndexOutOfBounds(_, _) => "IndexOutOfBounds",
            ErrorType::RangeOutOfBounds(_, _, _) => "RangeOutOfBounds",
            ErrorType::InvalidRange => "InvalidRange",
            ErrorType::Message(_) => "Message",
            ErrorType::Custom { name, .. } => name.as_str(),
        }
    }
}

/// Stores the kind of an error together with the ordered list of call sites
/// the failure has visited, deepest first.
#[derive(Debug, PartialEq)]
pub struct EzError {
    ty: ErrorType,
    frames: Vec<ConstLocation>,
}

impl EzError {
    /// The kind this error carries; fixed at construction.
    pub closed spec fn ty_spec(&self) -> ErrorType {
        self.ty
    }

    /// The recorded call sites, in the order they were appended.
    pub closed spec fn frames_spec(&self) -> Seq<ConstLocation> {
        self.frames@
    }

    /// Constructs a new `EzError` with the given error kind and no
    /// recorded call sites.
    pub fn new(ty: ErrorType) -> (e: EzError)
        ensures
            e.ty_spec() == ty,
            e.frames_spec() == Seq::<ConstLocation>::empty(),
    {
        EzError { ty, frames: Vec::new() }
    }

    /// Appends one call site to this error's trace; the kind and the
    /// previously recorded sites are unchanged.
    pub fn add_frame(&mut self, loc: ConstLocation)
        ensures
            final(self).ty_spec() == old(self).ty_spec(),
            final(self).frames_spec() == old(self).frames_spec().push(loc),
    {
        self.frames.push(loc);
    }

    /// Constructs a new [`EzError`] of kind [`ErrorType::Message`]
    /// carrying the given message.
    pub fn message(msg: &str) -> (e: EzError)
        ensures
            e.ty_spec() matches ErrorType::Message(m) && m@ == msg@,
            e.frames_spec() == Seq::<ConstLocation>::empty(),
    {
        EzError::new(ErrorType::Message(msg.to_owned()))
    }

    /// Constructs a new [`EzError`] of kind [`ErrorType::Custom`].
    /// The code can be used to store arbitrary extra information.
    pub fn custom(code: u32, name: String, message: String) -> (e: EzError)
        ensures
            e.ty_spec() matches ErrorType::Custom { code: c, name: n, message: m }
                && c == code && n@ == name@ && m@ == message@,
            e.frames_spec() == Seq::<ConstLocation>::empty(),
    {
        EzError::new(ErrorType::Custom { code, name, message })
    }

    /// Merges the other error into this one: the kind stays this error's
    /// kind, and the other's call sites are appended after this one's.
    pub fn with(self, other: EzError) -> (r: EzError)
        ensures
            r.ty_spec() == self.ty_spec(),
            r.frames_spec() == self.frames_spec() + other.frames_spec(),
    {
        let mut merged = self;
        let mut other = other;
        merged.frames.append(&mut other.frames);
        merged
    }

    /// Returns the kind of the error.
    pub fn ty(&self) -> (t: &ErrorType)
        ensures
            *t == self.ty_spec(),
    {
        &self.ty
    }

    /// Returns the recorded call sites of the error.
    pub fn frames(&self) -> (f: &Vec<ConstLocation>)
        ensures
            f@ == self.frames_spec(),
    {
        &self.frames
    }
}

/// One line of the rendered trace: `file:line:column` and a line break.
pub open spec fn frame_line_spec(loc: ConstLocation) -> Seq<char> {
    loc.file@ + ":"@ + dec_digits(loc.line as nat) + ":"@ + dec_digits(loc.column as nat) + "\n"@
}

/// The rendered trace lines for the given call sites, in stored order.
pub open spec fn trace_lines_spec(frames: Seq<ConstLocation>) -> Seq<char>
    decreases frames.len(),
{
    if frames.len() == 0 {
        Seq::<char>::empty()
    } else {
        trace_lines_spec(frames.drop_last()) + frame_line_spec(frames.last())
    }
}

/// The full report a terminal handler renders for an error: kind name,
/// formatted message, and one line per recorded call site, deepest first.
pub open spec fn report_spec(e: &EzError) -> Seq<char> {
    "Error "@ + e.ty_spec().name_spec() + ": "@ + e.ty_spec().format_spec() + "\n\n"@
        + "Stacktrace:\n"@ + trace_lines_spec(e.frames_spec())
}

/// Renders the full report for an error: its kind name, its formatted
/// message, and its trace, one `file:line:column` line per call site.
pub fn render_report(e: EzError) -> (r: String)
    ensures
        r@ == report_spec(&e),
{
    let EzError { ty, frames } = e;
    let mut trace = "Stacktrace:\n".to_owned();
    proof {
        assert(trace_lines_spec(frames@.take(0)) =~= Seq::<char>::empty());
        assert(trace@ =~= "Stacktrace:\n"@ + trace_lines_spec(frames@.take(0)));
    }
    let n: usize = frames.len();
    let mut i: usize = 0;
    while i < n
        invariant
            n == frames@.len(),
            i <= n,
            trace@ == "Stacktrace:\n"@ + trace_lines_spec(frames@.take(i as int)),
        decreases n - i,
    {
        let loc = frames[i];
        trace.append(loc.file);
        trace.append(":");
        trace.append(u64_to_string(loc.line as u64).as_str());
        trace.append(":");
        trace.append(u64_to_string(loc.column as u64).as_str());
        trace.append("\n");
        proof {
            assert(frames@.take(i + 1).drop_last() =~= frames@.take(i as int));
            assert(trace@ =~= "Stacktrace:\n"@ + trace_lines_spec(frames@.take(i + 1)));
        }
        i += 1;
    }
    proof {
        assert(frames@.take(n as int) =~= frames@);
    }
    let mut s = "Error ".to_owned();
    s.append(ty.name());
    s.append(": ");
    let message = ty.format();
    s.append(message.as_str());
    s.append("\n\n");
    s.append(trace.as_str());
    proof {
        assert(s@ =~= report_spec(&e));
    }
    s
}

/// Relies on std's `writeln!` to `std::io::Stdout`: prints the given text
/// and a trailing line break to standard output.
#[verifier::external_body]
fn emit_report(line: &str) {
    let _ = writeln!(std::io::stdout(), "{}", line);
}

/// Extension for failure-carrying values: terminal handling.
pub trait Handle<T> {
    /// Whether the value carries a success.
    spec fn succeeds(&self) -> bool;

    /// The contained success value.
    spec fn success_value(&self) -> T;

    /// Handles the value terminally. A failure is rendered and printed to
    /// the configured sink and `None` is returned; a success yields its
    /// contained value.
    fn handle(self) -> (r: Option<T>)
        ensures
            self.succeeds() ==> r == Some(self.success_value()),
            !self.succeeds() ==> r is None,
    ;

    /// Handles the value, which the caller must know to be a success; made
    /// for call sites that have no recovery path.
    fn handle_or_panic(self) -> (r: T)
        requires
            self.succeeds(),
        ensures
            r == self.success_value(),
    ;
}

impl<T> Handle<T> for Result<T, EzError> {
    open spec fn succeeds(&self) -> bool {
        self is Ok
    }

    open spec fn success_value(&self) -> T {
        self->Ok_0
    }

    fn handle(self) -> (r: Option<T>) {
        match self {
            Ok(v) => Some(v),
            Err(e) => {
                let report = render_report(e);
                emit_report(report.as_str());
                None
            },
        }
    }

    fn handle_or_panic(self) -> (r: T) {
        match self {
            Ok(v) => v,
            Err(_) => unreached(),
        }
    }
}

/// Executes the provided function and handles a failure terminally, as
/// [`Handle::handle`] does. This is useful for closures where no error
/// type can be returned by default.
pub fn handle<F, R>(func: F) -> (r: Option<R>) where F: FnOnce() -> Result<R, EzError>
    requires
        call_requires(func, ()),
    ensures
        exists|res: Result<R, EzError>|
            #[trigger] call_ensures(func, (), res) && (match res {
                Ok(v) => r == Some(v),
                Err(_) => r is None,
            }),
{
    let res = func();
    res.handle()
}

/// The one capability a foreign failure must offer to enter this error
/// representation: a human-readable rendering of itself.
pub trait ErrorText {
    /// The rendered text, as specification code sees it.
    spec fn text_spec(&self) -> Seq<char>;

    /// Renders this failure to text.
    fn error_text(&self) -> (s: String)
        ensures
            s@ == self.text_spec(),
    ;
}

impl ErrorText for str {
    open spec fn text_spec(&self) -> Seq<char> {
        self@
    }

    fn error_text(&self) -> (s: String) {
        self.to_owned()
    }
}

impl ErrorText for String {
    open spec fn text_spec(&self) -> Seq<char> {
        self@
    }

    fn error_text(&self) -> (s: String) {
        self.clone()
    }
}

/// Extension for failure-carrying values: attaching the invoking call site.
pub trait LocData<T> {
    /// The return type of [`LocData::loc`]. This can be used to convert
    /// between different error types.
    type Output;

    /// Records the given call site if `self` carries a failure; a success
    /// passes through unchanged.
    fn loc(self, loc: ConstLocation) -> Self::Output;
}

impl<T> LocData<T> for Result<T, EzError> {
    type Output = Result<T, EzError>;

    fn loc(self, loc: ConstLocation) -> (r: Result<T, EzError>)
        ensures
            self is Ok ==> r == self,
            self is Err ==> r is Err
                && r->Err_0.ty_spec() == self->Err_0.ty_spec()
                && r->Err_0.frames_spec() == self->Err_0.frames_spec().push(loc),
    {
        match self {
            Ok(v) => Ok(v),
            Err(mut e) => {
                e.add_frame(loc);
                Err(e)
            },
        }
    }
}

impl<T, E: ErrorText> LocData<T> for Result<T, E> {
    type Output = Result<T, EzError>;

    fn loc(self, loc: ConstLocation) -> (r: Result<T, EzError>)
        ensures
            self matches Ok(v) ==> r == Ok::<T, EzError>(v),
            self matches Err(e) ==> r is Err
                && (r->Err_0.ty_spec() matches ErrorType::Internal(m) && m@ == e.text_spec())
                && r->Err_0.frames_spec() == seq![loc],
    {
        match self {
            Ok(v) => Ok(v),
            Err(e) => {
                let mut err = EzError::new(ErrorType::Internal(e.error_text()));
                err.add_frame(loc);
                proof {
                    assert(err.frames_spec() =~= seq![loc]);
                }
                Err(err)
            },
        }
    }
}

impl<T> LocData<T> for Option<T> {
    type Output = Result<T, EzError>;

    fn loc(self, loc: ConstLocation) -> (r: Result<T, EzError>)
        ensures
            self matches Some(v) ==> r == Ok::<T, EzError>(v),
            self is None ==> r is Err
                && r->Err_0.ty_spec() == ErrorType::NoneOption
                && r->Err_0.frames_spec() == seq![loc],
    {
        match self {
            Some(v) => Ok(v),
            None => {
                let mut err = EzError::new(ErrorType::NoneOption);
                err.add_frame(loc);
                proof {
                    assert(err.frames_spec() =~= seq![loc]);
                }
                Err(err)
            },
        }
    }
}

/// The trace that results from attaching the given call sites one at a
/// time, in order, to an error whose trace holds `frames`.
pub open spec fn attached_in_turn(
    frames: Seq<ConstLocation>,
    locs: Seq<ConstLocation>,
) -> Seq<ConstLocation>
    decreases locs.len(),
{
    if locs.len() == 0 {
        frames
    } else {
        attached_in_turn(frames.push(locs[0]), locs.drop_first())
    }
}

/// Law: attaching a call site at each of several nested call sites appends
/// exactly those sites, in call order, after the previously recorded ones;
/// in particular a trace that starts empty ends as the attached sites
/// themselves, deepest first, one per attachment.
pub proof fn lemma_attach_accumulates(frames: Seq<ConstLocation>, locs: Seq<ConstLocation>)
    ensures
        attached_in_turn(frames, locs) == frames + locs,
        attached_in_turn(Seq::<ConstLocation>::empty(), locs) =~= locs,
    decreases locs.len(),
{
    if locs.len() == 0 {
        assert(attached_in_turn(frames, locs) =~= frames + locs);
        assert(attached_in_turn(Seq::<ConstLocation>::empty(), locs) =~= locs);
    } else {
        lemma_attach_accumulates(frames.push(locs[0]), locs.drop_first());
        assert(frames.push(locs[0]) + locs.drop_first() =~= frames + locs);
        lemma_attach_accumulates(Seq::<ConstLocation>::empty().push(locs[0]), locs.drop_first());
        assert(Seq::<ConstLocation>::empty().push(locs[0]) + locs.drop_first() =~= locs);
    }
}

/// Constructs a [`ErrorType::Message`] failure carrying the given message,
/// with the invoking call site already recorded; made for early returns.
pub fn bail<T>(msg: &str, loc: ConstLocation) -> (r: Result<T, EzError>)
    ensures
        r is Err,
        r->Err_0.ty_spec() matches ErrorType::Message(m) && m@ == msg@,
        r->Err_0.frames_spec() == seq![loc],
{
    let mut err = EzError::message(msg);
    err.add_frame(loc);
    proof {
        assert(err.frames_spec() =~= seq![loc]);
    }
    Err(err)
}

} // verus!
