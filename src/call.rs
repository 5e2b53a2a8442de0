//! One resolved stack frame, and its construction from a symbol reported by
//! the stack walker.
use crate::text::{bounded_text, longest_fitting_prefix, text_of, BoundedText};
use vstd::prelude::*;

verus! {

#[verifier::external_type_specification]
#[verifier::external_body]
pub struct ExSymbol(backtrace::Symbol);

/// The characters that a lossy UTF-8 decoding of `b` yields.
pub uninterp spec fn utf8_lossy_of(b: Seq<u8>) -> Seq<char>;

/// The characters that a lossy UTF-16 decoding of `u` yields.
pub uninterp spec fn utf16_lossy_of(u: Seq<u16>) -> Seq<char>;

/// The bytes of a symbol's name, if it has one.
pub uninterp spec fn symbol_name_of(s: backtrace::Symbol) -> Option<Seq<u8>>;

/// A symbol's raw file name, if known.
pub uninterp spec fn symbol_filename_of(s: backtrace::Symbol) -> Option<FilenameUnits>;

/// A symbol's address, if known.
pub uninterp spec fn symbol_addr_of(s: backtrace::Symbol) -> Option<usize>;

/// A symbol's line number, if known.
pub uninterp spec fn symbol_line_of(s: backtrace::Symbol) -> Option<u32>;

/// A symbol's column number, if known.
pub uninterp spec fn symbol_col_of(s: backtrace::Symbol) -> Option<u32>;

/// Relies on String::from_utf8_lossy: malformed sequences become U+FFFD,
/// never a panic; the result depends on the bytes alone.
#[verifier::external_body]
fn decode_utf8_lossy(b: &[u8]) -> (r: Vec<char>)
    ensures
        r@ == utf8_lossy_of(b@),
{
    String::from_utf8_lossy(b).chars().collect()
}

/// Relies on widestring::U16Str::chars_lossy: unpaired surrogates become
/// U+FFFD, never a panic; the result depends on the code units alone.
#[verifier::external_body]
fn decode_utf16_lossy(u: &[u16]) -> (r: Vec<char>)
    ensures
        r@ == utf16_lossy_of(u@),
{
    widestring::U16Str::from_slice(u).chars_lossy().collect()
}

/// A file name as the symbolizer reports it: narrow bytes or wide units.
pub enum RawFilename<'a> {
    Bytes(&'a [u8]),
    Wide(&'a [u16]),
}

/// The contents of a raw file name.
pub ghost enum FilenameUnits {
    Bytes(Seq<u8>),
    Wide(Seq<u16>),
}

pub open spec fn filename_units(f: RawFilename) -> FilenameUnits {
    match f {
        RawFilename::Bytes(b) => FilenameUnits::Bytes(b@),
        RawFilename::Wide(w) => FilenameUnits::Wide(w@),
    }
}

/// The characters a raw file name decodes to.
pub open spec fn units_chars(f: FilenameUnits) -> Seq<char> {
    match f {
        FilenameUnits::Bytes(b) => utf8_lossy_of(b),
        FilenameUnits::Wide(w) => utf16_lossy_of(w),
    }
}

/// Relies on backtrace::Symbol::name and SymbolName::as_str (falling back
/// to SymbolName::as_bytes when the name is not UTF-8): the symbol's name,
/// if it has one.
#[verifier::external_body]
fn symbol_name_bytes<'a>(s: &'a backtrace::Symbol) -> (r: Option<&'a [u8]>)
    ensures
        r matches Some(b) ==> symbol_name_of(*s) == Some(b@),
        r is None ==> symbol_name_of(*s) is None,
{
    s.name().map(|n| n.as_str().map(str::as_bytes).unwrap_or(n.as_bytes()))
}

/// Relies on backtrace::Symbol::filename_raw: the file name in whichever
/// encoding the platform's debug information uses.
#[verifier::external_body]
fn symbol_filename<'a>(s: &'a backtrace::Symbol) -> (r: Option<RawFilename<'a>>)
    ensures
        r matches Some(f) ==> symbol_filename_of(*s) == Some(filename_units(f)),
        r is None ==> symbol_filename_of(*s) is None,
{
    match s.filename_raw() {
        Some(backtrace::BytesOrWideString::Bytes(b)) => Some(RawFilename::Bytes(b)),
        Some(backtrace::BytesOrWideString::Wide(w)) => Some(RawFilename::Wide(w)),
        None => None,
    }
}

/// Relies on backtrace::Symbol::addr: the symbol's starting address.
#[verifier::external_body]
fn symbol_addr(s: &backtrace::Symbol) -> (r: Option<usize>)
    ensures
        r == symbol_addr_of(*s),
{
    s.addr().map(|p| p as usize)
}

/// Relies on backtrace::Symbol::lineno: the line number, if known.
pub assume_specification[ backtrace::Symbol::lineno ](s: &backtrace::Symbol) -> (r: Option<u32>)
    ensures
        r == symbol_line_of(*s),
;

/// Relies on backtrace::Symbol::colno: the column number, if known.
pub assume_specification[ backtrace::Symbol::colno ](s: &backtrace::Symbol) -> (r: Option<u32>)
    ensures
        r == symbol_col_of(*s),
;

/// One resolved stack frame. Name and file name are absent when the
/// symbolizer could not provide them, and cut short when too long.
#[derive(Debug, Clone)]
pub struct Call {
    pub name: Option<BoundedText>,
    pub filename: Option<BoundedText>,
    pub line: Option<u32>,
    pub col: Option<u32>,
    pub addr: usize,
}

/// An optional bounded text holds the longest fitting prefix of an optional
/// source.
pub open spec fn optional_text_of(t: Option<BoundedText>, src: Option<Seq<char>>) -> bool {
    match (t, src) {
        (None, None) => true,
        (Some(t), Some(s)) => longest_fitting_prefix(text_of(t), s),
        _ => false,
    }
}

/// `c` is the frame built from the given pieces.
pub open spec fn call_of_parts(
    c: Call,
    name: Option<Seq<u8>>,
    filename: Option<FilenameUnits>,
    line: Option<u32>,
    col: Option<u32>,
    addr: Option<usize>,
) -> bool {
    &&& optional_text_of(c.name, match name {
        Some(b) => Some(utf8_lossy_of(b)),
        None => None,
    })
    &&& optional_text_of(c.filename, match filename {
        Some(f) => Some(units_chars(f)),
        None => None,
    })
    &&& c.line == line
    &&& c.col == col
    &&& c.addr == match addr {
        Some(a) => a,
        None => 0usize,
    }
}

/// `c` is the frame built from symbol `s`.
pub open spec fn call_of_symbol(c: Call, s: backtrace::Symbol) -> bool {
    call_of_parts(
        c,
        symbol_name_of(s),
        symbol_filename_of(s),
        symbol_line_of(s),
        symbol_col_of(s),
        symbol_addr_of(s),
    )
}

impl Call {
    /// Builds a frame from the pieces a symbol reports. A missing address
    /// is recorded as zero.
    pub fn from_parts(
        name: Option<&[u8]>,
        filename: Option<RawFilename>,
        line: Option<u32>,
        col: Option<u32>,
        addr: Option<usize>,
    ) -> (r: Call)
        ensures
            call_of_parts(
                r,
                match name {
                    Some(b) => Some(b@),
                    None => None,
                },
                match filename {
                    Some(f) => Some(filename_units(f)),
                    None => None,
                },
                line,
                col,
                addr,
            ),
    {
        let name = match name {
            Some(b) => Some(bounded_text(&decode_utf8_lossy(b))),
            None => None,
        };
        let filename = match filename {
            Some(RawFilename::Bytes(b)) => Some(bounded_text(&decode_utf8_lossy(b))),
            Some(RawFilename::Wide(w)) => Some(bounded_text(&decode_utf16_lossy(w))),
            None => None,
        };
        let addr = match addr {
            Some(a) => a,
            None => 0,
        };
        Call { name, filename, line, col, addr }
    }

    /// Builds a frame from a symbol reported by the stack walker.
    pub fn from_symbol(s: &backtrace::Symbol) -> (r: Call)
        ensures
            call_of_symbol(r, *s),
    {
        let name = symbol_name_bytes(s);
        let filename = symbol_filename(s);
        Call::from_parts(name, filename, s.lineno(), s.colno(), symbol_addr(s))
    }
}

} // verus!
