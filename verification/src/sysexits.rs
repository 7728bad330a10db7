//! The `<sysexits.h>` family of standard process exit codes.

use vstd::prelude::*;

verus! {

/// A `Result` whose error is a standard exit code.
pub type SysexitsResult<T> = Result<T, SysexitsError>;

/// Standard `<sysexits.h>` preferable exit codes for programs on Unix
/// systems, so that the caller of a process can get a rough estimate of the
/// failure class without looking at the program's output.
#[allow(non_camel_case_types)]
#[derive(Clone, Copy, Debug, Eq, Hash, Ord, PartialEq, PartialOrd, Structural)]
pub enum SysexitsError {
    /// Successful termination.
    EX_OK,
    /// The command was used incorrectly, e.g., with the wrong number of
    /// arguments, a bad flag, or a bad syntax in a parameter.
    EX_USAGE,
    /// The input data was incorrect in some way.
    EX_DATAERR,
    /// An input file (not a system file) did not exist or was not readable.
    EX_NOINPUT,
    /// The user specified did not exist.
    EX_NOUSER,
    /// The host specified did not exist.
    EX_NOHOST,
    /// A service is unavailable.
    EX_UNAVAILABLE,
    /// An internal software error has been detected.
    EX_SOFTWARE,
    /// An operating system error has been detected.
    EX_OSERR,
    /// Some system file does not exist, cannot be opened, or has an error.
    EX_OSFILE,
    /// A (user specified) output file cannot be created.
    EX_CANTCREAT,
    /// An error occurred while doing I/O on some file.
    EX_IOERR,
    /// Temporary failure, indicating something that is not really an error.
    EX_TEMPFAIL,
    /// The remote system returned something that was "not possible" during a
    /// protocol exchange.
    EX_PROTOCOL,
    /// You did not have sufficient permission to perform the operation.
    EX_NOPERM,
    /// Something was found in an unconfigured or misconfigured state.
    EX_CONFIG,
}

impl SysexitsError {
    /// The numeric exit code of this member: 0 for `EX_OK`, 64 through 78
    /// for the fifteen failure members.
    pub open spec fn code_spec(self) -> u8 {
        match self {
            SysexitsError::EX_OK => 0,
            SysexitsError::EX_USAGE => 64,
            SysexitsError::EX_DATAERR => 65,
            SysexitsError::EX_NOINPUT => 66,
            SysexitsError::EX_NOUSER => 67,
            SysexitsError::EX_NOHOST => 68,
            SysexitsError::EX_UNAVAILABLE => 69,
            SysexitsError::EX_SOFTWARE => 70,
            SysexitsError::EX_OSERR => 71,
            SysexitsError::EX_OSFILE => 72,
            SysexitsError::EX_CANTCREAT => 73,
            SysexitsError::EX_IOERR => 74,
            SysexitsError::EX_TEMPFAIL => 75,
            SysexitsError::EX_PROTOCOL => 76,
            SysexitsError::EX_NOPERM => 77,
            SysexitsError::EX_CONFIG => 78,
        }
    }

    /// True exactly of `EX_OK`.
    pub open spec fn is_success_spec(self) -> bool {
        self == SysexitsError::EX_OK
    }

    /// True exactly of the fifteen failure members.
    pub open spec fn is_failure_spec(self) -> bool {
        !self.is_success_spec()
    }

    /// Whether this code reports successful termination.
    pub fn is_success(&self) -> (r: bool)
        ensures
            r == self.is_success_spec(),
    {
        *self == SysexitsError::EX_OK
    }

    /// Whether this code reports a failure of any class.
    pub fn is_failure(&self) -> (r: bool)
        ensures
            r == self.is_failure_spec(),
    {
        !self.is_success()
    }

    /// The numeric exit code as an 8-bit integer.
    pub fn as_u8(&self) -> (r: u8)
        ensures
            r == self.code_spec(),
    {
        match *self {
            SysexitsError::EX_OK => 0,
            SysexitsError::EX_USAGE => 64,
            SysexitsError::EX_DATAERR => 65,
            SysexitsError::EX_NOINPUT => 66,
            SysexitsError::EX_NOUSER => 67,
            SysexitsError::EX_NOHOST => 68,
            SysexitsError::EX_UNAVAILABLE => 69,
            SysexitsError::EX_SOFTWARE => 70,
            SysexitsError::EX_OSERR => 71,
            SysexitsError::EX_OSFILE => 72,
            SysexitsError::EX_CANTCREAT => 73,
            SysexitsError::EX_IOERR => 74,
            SysexitsError::EX_TEMPFAIL => 75,
            SysexitsError::EX_PROTOCOL => 76,
            SysexitsError::EX_NOPERM => 77,
            SysexitsError::EX_CONFIG => 78,
        }
    }

    /// The numeric exit code, widened to the width of a process exit status.
    pub fn as_i32(&self) -> (r: i32)
        ensures
            r == self.code_spec() as i32,
    {
        self.as_u8() as i32
    }

    /// The numeric exit code of a completed process, which this crate always
    /// knows.
    pub fn code(&self) -> (r: Option<i32>)
        ensures
            r == Some(self.code_spec() as i32),
    {
        Some(self.as_i32())
    }

    /// The symbolic name of this member, as `<sysexits.h>` spells it.
    pub open spec fn name_spec(self) -> Seq<char> {
        match self {
            SysexitsError::EX_OK => "EX_OK"@,
            SysexitsError::EX_USAGE => "EX_USAGE"@,
            SysexitsError::EX_DATAERR => "EX_DATAERR"@,
            SysexitsError::EX_NOINPUT => "EX_NOINPUT"@,
            SysexitsError::EX_NOUSER => "EX_NOUSER"@,
            SysexitsError::EX_NOHOST => "EX_NOHOST"@,
            SysexitsError::EX_UNAVAILABLE => "EX_UNAVAILABLE"@,
            SysexitsError::EX_SOFTWARE => "EX_SOFTWARE"@,
            SysexitsError::EX_OSERR => "EX_OSERR"@,
            SysexitsError::EX_OSFILE => "EX_OSFILE"@,
            SysexitsError::EX_CANTCREAT => "EX_CANTCREAT"@,
            SysexitsError::EX_IOERR => "EX_IOERR"@,
            SysexitsError::EX_TEMPFAIL => "EX_TEMPFAIL"@,
            SysexitsError::EX_PROTOCOL => "EX_PROTOCOL"@,
            SysexitsError::EX_NOPERM => "EX_NOPERM"@,
            SysexitsError::EX_CONFIG => "EX_CONFIG"@,
        }
    }

    /// The fixed human-readable description of this member.
    pub open spec fn summary_spec(self) -> Seq<char> {
        match self {
            SysexitsError::EX_OK => "successful termination"@,
            SysexitsError::EX_USAGE => "command line usage error"@,
            SysexitsError::EX_DATAERR => "data format error"@,
            SysexitsError::EX_NOINPUT => "cannot open input"@,
            SysexitsError::EX_NOUSER => "addressee unknown"@,
            SysexitsError::EX_NOHOST => "host name unknown"@,
            SysexitsError::EX_UNAVAILABLE => "service unavailable"@,
            SysexitsError::EX_SOFTWARE => "internal software error"@,
            SysexitsError::EX_OSERR => "system error"@,
            SysexitsError::EX_OSFILE => "critical OS file missing"@,
            SysexitsError::EX_CANTCREAT => "can't create (user) output file"@,
            SysexitsError::EX_IOERR => "input/output error"@,
            SysexitsError::EX_TEMPFAIL => "temporary failure"@,
            SysexitsError::EX_PROTOCOL => "remote error in protocol"@,
            SysexitsError::EX_NOPERM => "permission denied"@,
            SysexitsError::EX_CONFIG => "configuration error"@,
        }
    }

    /// The symbolic name of this member.
    pub fn name(&self) -> (r: &'static str)
        ensures
            r@ == self.name_spec(),
    {
        match *self {
            SysexitsError::EX_OK => "EX_OK",
            SysexitsError::EX_USAGE => "EX_USAGE",
            SysexitsError::EX_DATAERR => "EX_DATAERR",
            SysexitsError::EX_NOINPUT => "EX_NOINPUT",
            SysexitsError::EX_NOUSER => "EX_NOUSER",
            SysexitsError::EX_NOHOST => "EX_NOHOST",
            SysexitsError::EX_UNAVAILABLE => "EX_UNAVAILABLE",
            SysexitsError::EX_SOFTWARE => "EX_SOFTWARE",
            SysexitsError::EX_OSERR => "EX_OSERR",
            SysexitsError::EX_OSFILE => "EX_OSFILE",
            SysexitsError::EX_CANTCREAT => "EX_CANTCREAT",
            SysexitsError::EX_IOERR => "EX_IOERR",
            SysexitsError::EX_TEMPFAIL => "EX_TEMPFAIL",
            SysexitsError::EX_PROTOCOL => "EX_PROTOCOL",
            SysexitsError::EX_NOPERM => "EX_NOPERM",
            SysexitsError::EX_CONFIG => "EX_CONFIG",
        }
    }

    /// The symbolic name of this member, under the conventional accessor
    /// name.
    pub fn as_str(&self) -> (r: &'static str)
        ensures
            r@ == self.name_spec(),
    {
        self.name()
    }

    /// The fixed human-readable description of this member.
    pub fn summary(&self) -> (r: &'static str)
        ensures
            r@ == self.summary_spec(),
    {
        match *self {
            SysexitsError::EX_OK => "successful termination",
            SysexitsError::EX_USAGE => "command line usage error",
            SysexitsError::EX_DATAERR => "data format error",
            SysexitsError::EX_NOINPUT => "cannot open input",
            SysexitsError::EX_NOUSER => "addressee unknown",
            SysexitsError::EX_NOHOST => "host name unknown",
            SysexitsError::EX_UNAVAILABLE => "service unavailable",
            SysexitsError::EX_SOFTWARE => "internal software error",
            SysexitsError::EX_OSERR => "system error",
            SysexitsError::EX_OSFILE => "critical OS file missing",
            SysexitsError::EX_CANTCREAT => "can't create (user) output file",
            SysexitsError::EX_IOERR => "input/output error",
            SysexitsError::EX_TEMPFAIL => "temporary failure",
            SysexitsError::EX_PROTOCOL => "remote error in protocol",
            SysexitsError::EX_NOPERM => "permission denied",
            SysexitsError::EX_CONFIG => "configuration error",
        }
    }
}

impl SysexitsError {
    /// Whether `code` is one of the sixteen fixed exit-code values.
    pub open spec fn is_defined_code(code: int) -> bool {
        code == 0 || 64 <= code <= 78
    }

    /// The member whose numeric value is `code`, or `None` when `code` is
    /// outside the fixed set.
    pub open spec fn from_code(code: int) -> Option<SysexitsError> {
        if code == 0 {
            Some(SysexitsError::EX_OK)
        } else if code == 64 {
            Some(SysexitsError::EX_USAGE)
        } else if code == 65 {
            Some(SysexitsError::EX_DATAERR)
        } else if code == 66 {
            Some(SysexitsError::EX_NOINPUT)
        } else if code == 67 {
            Some(SysexitsError::EX_NOUSER)
        } else if code == 68 {
            Some(SysexitsError::EX_NOHOST)
        } else if code == 69 {
            Some(SysexitsError::EX_UNAVAILABLE)
        } else if code == 70 {
            Some(SysexitsError::EX_SOFTWARE)
        } else if code == 71 {
            Some(SysexitsError::EX_OSERR)
        } else if code == 72 {
            Some(SysexitsError::EX_OSFILE)
        } else if code == 73 {
            Some(SysexitsError::EX_CANTCREAT)
        } else if code == 74 {
            Some(SysexitsError::EX_IOERR)
        } else if code == 75 {
            Some(SysexitsError::EX_TEMPFAIL)
        } else if code == 76 {
            Some(SysexitsError::EX_PROTOCOL)
        } else if code == 77 {
            Some(SysexitsError::EX_NOPERM)
        } else if code == 78 {
            Some(SysexitsError::EX_CONFIG)
        } else {
            None
        }
    }

    /// The member with the given 8-bit exit code, or the code itself as the
    /// error when it lies outside the fixed set.
    pub fn try_from_u8(code: u8) -> (r: Result<SysexitsError, u8>)
        ensures
            r == match SysexitsError::from_code(code as int) {
                Some(e) => Result::<SysexitsError, u8>::Ok(e),
                None => Result::<SysexitsError, u8>::Err(code),
            },
    {
        match code {
            0 => Ok(SysexitsError::EX_OK),
            64 => Ok(SysexitsError::EX_USAGE),
            65 => Ok(SysexitsError::EX_DATAERR),
            66 => Ok(SysexitsError::EX_NOINPUT),
            67 => Ok(SysexitsError::EX_NOUSER),
            68 => Ok(SysexitsError::EX_NOHOST),
            69 => Ok(SysexitsError::EX_UNAVAILABLE),
            70 => Ok(SysexitsError::EX_SOFTWARE),
            71 => Ok(SysexitsError::EX_OSERR),
            72 => Ok(SysexitsError::EX_OSFILE),
            73 => Ok(SysexitsError::EX_CANTCREAT),
            74 => Ok(SysexitsError::EX_IOERR),
            75 => Ok(SysexitsError::EX_TEMPFAIL),
            76 => Ok(SysexitsError::EX_PROTOCOL),
            77 => Ok(SysexitsError::EX_NOPERM),
            78 => Ok(SysexitsError::EX_CONFIG),
            _ => Err(code),
        }
    }

    /// The member with the given exit code, or the code itself as the error
    /// when it lies outside the fixed set. Negative codes and codes above
    /// 255 are rejected whole, never truncated.
    pub fn try_from_i32(code: i32) -> (r: Result<SysexitsError, i32>)
        ensures
            r == match SysexitsError::from_code(code as int) {
                Some(e) => Result::<SysexitsError, i32>::Ok(e),
                None => Result::<SysexitsError, i32>::Err(code),
            },
    {
        if 0 <= code && code <= 255 {
            match SysexitsError::try_from_u8(code as u8) {
                Ok(e) => Ok(e),
                Err(_) => Err(code),
            }
        } else {
            Err(code)
        }
    }

    /// The member for a completed process: `code` carries the numeric exit
    /// status when the process exited normally, and `None` when it was ended
    /// by a signal. The error repeats the argument, so an unrecognized exit
    /// code is told apart from a missing one.
    pub fn from_status_code(code: Option<i32>) -> (r: Result<SysexitsError, Option<i32>>)
        ensures
            r == match code {
                Some(c) => match SysexitsError::from_code(c as int) {
                    Some(e) => Result::<SysexitsError, Option<i32>>::Ok(e),
                    None => Result::<SysexitsError, Option<i32>>::Err(Some(c)),
                },
                None => Result::<SysexitsError, Option<i32>>::Err(None),
            },
    {
        match code {
            Some(c) => match SysexitsError::try_from_i32(c) {
                Ok(e) => Ok(e),
                Err(_) => Err(Some(c)),
            },
            None => Err(None),
        }
    }
}

impl SysexitsError {
    /// What parsing `s` yields: the member whose symbolic name `s` equals,
    /// the member whose numeric value `s` denotes as a decimal numeral, or
    /// an error for every other string. Names are matched exactly, with no
    /// trimming and no case folding.
    pub open spec fn parse_spec(s: Seq<char>) -> Result<SysexitsError, ()> {
        if s == SysexitsError::EX_OK.name_spec() {
            Ok(SysexitsError::EX_OK)
        } else if s == SysexitsError::EX_USAGE.name_spec() {
            Ok(SysexitsError::EX_USAGE)
        } else if s == SysexitsError::EX_DATAERR.name_spec() {
            Ok(SysexitsError::EX_DATAERR)
        } else if s == SysexitsError::EX_NOINPUT.name_spec() {
            Ok(SysexitsError::EX_NOINPUT)
        } else if s == SysexitsError::EX_NOUSER.name_spec() {
            Ok(SysexitsError::EX_NOUSER)
        } else if s == SysexitsError::EX_NOHOST.name_spec() {
            Ok(SysexitsError::EX_NOHOST)
        } else if s == SysexitsError::EX_UNAVAILABLE.name_spec() {
            Ok(SysexitsError::EX_UNAVAILABLE)
        } else if s == SysexitsError::EX_SOFTWARE.name_spec() {
            Ok(SysexitsError::EX_SOFTWARE)
        } else if s == SysexitsError::EX_OSERR.name_spec() {
            Ok(SysexitsError::EX_OSERR)
        } else if s == SysexitsError::EX_OSFILE.name_spec() {
            Ok(SysexitsError::EX_OSFILE)
        } else if s == SysexitsError::EX_CANTCREAT.name_spec() {
            Ok(SysexitsError::EX_CANTCREAT)
        } else if s == SysexitsError::EX_IOERR.name_spec() {
            Ok(SysexitsError::EX_IOERR)
        } else if s == SysexitsError::EX_TEMPFAIL.name_spec() {
            Ok(SysexitsError::EX_TEMPFAIL)
        } else if s == SysexitsError::EX_PROTOCOL.name_spec() {
            Ok(SysexitsError::EX_PROTOCOL)
        } else if s == SysexitsError::EX_NOPERM.name_spec() {
            Ok(SysexitsError::EX_NOPERM)
        } else if s == SysexitsError::EX_CONFIG.name_spec() {
            Ok(SysexitsError::EX_CONFIG)
        } else {
            match dec_numeral_u8(s) {
                Some(code) => match SysexitsError::from_code(code as int) {
                    Some(e) => Ok(e),
                    None => Err(()),
                },
                None => Err(()),
            }
        }
    }

    /// Parses an exit code from its exact symbolic name or from a decimal
    /// numeral that denotes one of the sixteen fixed values; every other
    /// string is rejected.
    pub fn parse(input: &str) -> (r: Result<SysexitsError, ()>)
        ensures
            r == SysexitsError::parse_spec(input@),
    {
        if str_eq(input, "EX_OK") {
            Ok(SysexitsError::EX_OK)
        } else if str_eq(input, "EX_USAGE") {
            Ok(SysexitsError::EX_USAGE)
        } else if str_eq(input, "EX_DATAERR") {
            Ok(SysexitsError::EX_DATAERR)
        } else if str_eq(input, "EX_NOINPUT") {
            Ok(SysexitsError::EX_NOINPUT)
        } else if str_eq(input, "EX_NOUSER") {
            Ok(SysexitsError::EX_NOUSER)
        } else if str_eq(input, "EX_NOHOST") {
            Ok(SysexitsError::EX_NOHOST)
        } else if str_eq(input, "EX_UNAVAILABLE") {
            Ok(SysexitsError::EX_UNAVAILABLE)
        } else if str_eq(input, "EX_SOFTWARE") {
            Ok(SysexitsError::EX_SOFTWARE)
        } else if str_eq(input, "EX_OSERR") {
            Ok(SysexitsError::EX_OSERR)
        } else if str_eq(input, "EX_OSFILE") {
            Ok(SysexitsError::EX_OSFILE)
        } else if str_eq(input, "EX_CANTCREAT") {
            Ok(SysexitsError::EX_CANTCREAT)
        } else if str_eq(input, "EX_IOERR") {
            Ok(SysexitsError::EX_IOERR)
        } else if str_eq(input, "EX_TEMPFAIL") {
            Ok(SysexitsError::EX_TEMPFAIL)
        } else if str_eq(input, "EX_PROTOCOL") {
            Ok(SysexitsError::EX_PROTOCOL)
        } else if str_eq(input, "EX_NOPERM") {
            Ok(SysexitsError::EX_NOPERM)
        } else if str_eq(input, "EX_CONFIG") {
            Ok(SysexitsError::EX_CONFIG)
        } else {
            match parse_dec_u8(input) {
                Some(code) => match SysexitsError::try_from_u8(code) {
                    Ok(e) => Ok(e),
                    Err(_) => Err(()),
                },
                None => Err(()),
            }
        }
    }
}

impl core::str::FromStr for SysexitsError {
    type Err = ();

    /// Parses an exit code as [`SysexitsError::parse`] does.
    fn from_str(input: &str) -> Result<Self, ()> {
        SysexitsError::parse(input)
    }
}

impl Default for SysexitsError {
    /// The default exit code is successful termination.
    fn default() -> (r: Self)
        ensures
            r == SysexitsError::EX_OK,
    {
        SysexitsError::EX_OK
    }
}

/// Whether `c` is a decimal digit.
pub open spec fn is_dec_digit(c: char) -> bool {
    48 <= c as int <= 57
}

/// The numeric value of the decimal digit `c`.
pub open spec fn digit_value(c: char) -> int {
    c as int - 48
}

/// Whether every character of `s` is a decimal digit.
pub open spec fn all_dec_digits(s: Seq<char>) -> bool {
    forall|i: int| 0 <= i < s.len() ==> is_dec_digit(#[trigger] s[i])
}

/// The integer that the digit string `s` denotes, most significant digit
/// first.
pub open spec fn dec_value(s: Seq<char>) -> int
    decreases s.len(),
{
    if s.len() == 0 {
        0
    } else {
        dec_value(s.drop_last()) * 10 + digit_value(s.last())
    }
}

/// The 8-bit integer that `s` denotes as a decimal numeral: an optional
/// leading plus sign, then one or more digits, denoting a value of at most
/// 255. Anything else denotes no numeral at all.
pub open spec fn dec_numeral_u8(s: Seq<char>) -> Option<u8> {
    let digits = if s.len() > 0 && s[0] == '+' {
        s.subrange(1, s.len() as int)
    } else {
        s
    };
    if digits.len() > 0 && all_dec_digits(digits) && dec_value(digits) <= 255 {
        Some(dec_value(digits) as u8)
    } else {
        None
    }
}

proof fn lemma_dec_value_nonneg(s: Seq<char>)
    requires
        all_dec_digits(s),
    ensures
        dec_value(s) >= 0,
    decreases s.len(),
{
    if s.len() > 0 {
        assert(all_dec_digits(s.drop_last()));
        lemma_dec_value_nonneg(s.drop_last());
    }
}

proof fn lemma_dec_value_prefix(s: Seq<char>, j: int)
    requires
        all_dec_digits(s),
        0 <= j <= s.len(),
    ensures
        dec_value(s.subrange(0, j)) <= dec_value(s),
    decreases s.len(),
{
    if j == s.len() {
        assert(s.subrange(0, j) =~= s);
    } else {
        assert(all_dec_digits(s.drop_last()));
        assert(s.drop_last().subrange(0, j) =~= s.subrange(0, j));
        lemma_dec_value_prefix(s.drop_last(), j);
        lemma_dec_value_nonneg(s.drop_last());
    }
}

/// Whether the two string slices hold the same characters.
fn str_eq(a: &str, b: &str) -> (r: bool)
    ensures
        r == (a@ == b@),
{
    let a_len = a.unicode_len();
    let b_len = b.unicode_len();
    if a_len != b_len {
        return false;
    }
    let mut i: usize = 0;
    while i < a_len
        invariant
            i <= a_len,
            a_len == a@.len(),
            a_len == b@.len(),
            forall|j: int| 0 <= j < i ==> a@[j] == b@[j],
        decreases a_len - i,
    {
        if a.get_char(i) != b.get_char(i) {
            return false;
        }
        i = i + 1;
    }
    proof {
        assert(a@ =~= b@);
    }
    true
}

/// Reads an 8-bit integer from a decimal numeral, exactly as
/// [`dec_numeral_u8`] defines one.
fn parse_dec_u8(s: &str) -> (r: Option<u8>)
    ensures
        r == dec_numeral_u8(s@),
{
    let n = s.unicode_len();
    let start: usize = if n > 0 && s.get_char(0) == '+' {
        1
    } else {
        0
    };
    if start == n {
        proof {
            if start == 1 {
                assert(s@.subrange(1, s@.len() as int).len() == 0);
            }
        }
        return None;
    }
    let ghost digits: Seq<char> = if start == 1 {
        s@.subrange(1, s@.len() as int)
    } else {
        s@
    };
    let mut value: u32 = 0;
    let mut i = start;
    while i < n
        invariant
            start <= i <= n,
            n == s@.len(),
            start == 0 || start == 1,
            start == 1 ==> s@.len() > 0 && s@[0] == '+',
            start == 0 ==> !(s@.len() > 0 && s@[0] == '+'),
            digits == s@.subrange(start as int, n as int),
            all_dec_digits(s@.subrange(start as int, i as int)),
            value == dec_value(s@.subrange(start as int, i as int)),
            value <= 255,
        decreases n - i,
    {
        let c = s.get_char(i);
        let cv = c as u32;
        if cv < 48 || cv > 57 {
            proof {
                assert(digits[i - start] == c);
                assert(!all_dec_digits(digits));
            }
            return None;
        }
        let d = cv - 48;
        let next = value * 10 + d;
        proof {
            let done = s@.subrange(start as int, i + 1);
            assert(done.drop_last() =~= s@.subrange(start as int, i as int));
            assert(done.last() == c);
            assert(cv as int == c as int);
            assert(dec_value(done) == next as int);
            assert(all_dec_digits(done));
        }
        if next > 255 {
            proof {
                let done = s@.subrange(start as int, i + 1);
                if all_dec_digits(digits) {
                    assert(digits.subrange(0, i + 1 - start) =~= done);
                    lemma_dec_value_prefix(digits, i + 1 - start);
                }
                let spec_digits = if s@.len() > 0 && s@[0] == '+' {
                    s@.subrange(1, s@.len() as int)
                } else {
                    s@
                };
                assert(spec_digits == digits);
                assert(dec_numeral_u8(s@) is None);
            }
            return None;
        }
        value = next;
        i = i + 1;
    }
    proof {
        assert(s@.subrange(start as int, n as int) =~= digits);
        if start == 0 {
            assert(s@.subrange(0, n as int) =~= s@);
        }
    }
    Some(value as u8)
}

/// The fixed, ecosystem-neutral set of I/O failure categories that the
/// classification policy distinguishes. A host error category with no
/// counterpart here is reported as `Other`.
#[derive(Clone, Copy, Debug, Eq, PartialEq, Structural)]
pub enum IoErrorKind {
    /// A local network address is already in use.
    AddrInUse,
    /// A local network address is not available.
    AddrNotAvailable,
    /// A resource to be created already exists.
    AlreadyExists,
    /// The peer closed the pipe being written to.
    BrokenPipe,
    /// The remote side aborted the connection.
    ConnectionAborted,
    /// The remote side refused the connection.
    ConnectionRefused,
    /// The remote side reset the connection.
    ConnectionReset,
    /// The operation was interrupted.
    Interrupted,
    /// The data read is not valid for the operation.
    InvalidData,
    /// An input argument was invalid.
    InvalidInput,
    /// The operation needs a connection that is not established.
    NotConnected,
    /// The entity asked for was not found.
    NotFound,
    /// Any category not named by one of the other members.
    Other,
    /// The operation ran out of memory.
    OutOfMemory,
    /// The operation lacked the needed permission.
    PermissionDenied,
    /// The operation timed out.
    TimedOut,
    /// The input ended before the operation was done.
    UnexpectedEof,
    /// The operation is not supported here.
    Unsupported,
    /// The operation would have to block to proceed.
    WouldBlock,
    /// A write call returned zero bytes of progress.
    WriteZero,
}

/// The exit code that the classification policy assigns to each I/O failure
/// category; `Other`, standing for every unlisted category, gets the
/// catch-all `EX_UNAVAILABLE`.
pub open spec fn classify_io_error_spec(kind: IoErrorKind) -> SysexitsError {
    match kind {
        IoErrorKind::AddrInUse => SysexitsError::EX_TEMPFAIL,
        IoErrorKind::AddrNotAvailable => SysexitsError::EX_USAGE,
        IoErrorKind::AlreadyExists => SysexitsError::EX_CANTCREAT,
        IoErrorKind::BrokenPipe => SysexitsError::EX_IOERR,
        IoErrorKind::ConnectionAborted => SysexitsError::EX_PROTOCOL,
        IoErrorKind::ConnectionRefused => SysexitsError::EX_UNAVAILABLE,
        IoErrorKind::ConnectionReset => SysexitsError::EX_PROTOCOL,
        IoErrorKind::Interrupted => SysexitsError::EX_TEMPFAIL,
        IoErrorKind::InvalidData => SysexitsError::EX_DATAERR,
        IoErrorKind::InvalidInput => SysexitsError::EX_DATAERR,
        IoErrorKind::NotConnected => SysexitsError::EX_PROTOCOL,
        IoErrorKind::NotFound => SysexitsError::EX_NOINPUT,
        IoErrorKind::Other => SysexitsError::EX_UNAVAILABLE,
        IoErrorKind::OutOfMemory => SysexitsError::EX_TEMPFAIL,
        IoErrorKind::PermissionDenied => SysexitsError::EX_NOPERM,
        IoErrorKind::TimedOut => SysexitsError::EX_IOERR,
        IoErrorKind::UnexpectedEof => SysexitsError::EX_IOERR,
        IoErrorKind::Unsupported => SysexitsError::EX_SOFTWARE,
        IoErrorKind::WouldBlock => SysexitsError::EX_IOERR,
        IoErrorKind::WriteZero => SysexitsError::EX_IOERR,
    }
}

/// Maps an I/O failure category to the exit code the policy assigns it.
/// Every category gets a failure code, never `EX_OK`.
pub fn classify_io_error(kind: IoErrorKind) -> (r: SysexitsError)
    ensures
        r == classify_io_error_spec(kind),
        r.is_failure_spec(),
{
    match kind {
        IoErrorKind::AddrInUse => SysexitsError::EX_TEMPFAIL,
        IoErrorKind::AddrNotAvailable => SysexitsError::EX_USAGE,
        IoErrorKind::AlreadyExists => SysexitsError::EX_CANTCREAT,
        IoErrorKind::BrokenPipe => SysexitsError::EX_IOERR,
        IoErrorKind::ConnectionAborted => SysexitsError::EX_PROTOCOL,
        IoErrorKind::ConnectionRefused => SysexitsError::EX_UNAVAILABLE,
        IoErrorKind::ConnectionReset => SysexitsError::EX_PROTOCOL,
        IoErrorKind::Interrupted => SysexitsError::EX_TEMPFAIL,
        IoErrorKind::InvalidData => SysexitsError::EX_DATAERR,
        IoErrorKind::InvalidInput => SysexitsError::EX_DATAERR,
        IoErrorKind::NotConnected => SysexitsError::EX_PROTOCOL,
        IoErrorKind::NotFound => SysexitsError::EX_NOINPUT,
        IoErrorKind::Other => SysexitsError::EX_UNAVAILABLE,
        IoErrorKind::OutOfMemory => SysexitsError::EX_TEMPFAIL,
        IoErrorKind::PermissionDenied => SysexitsError::EX_NOPERM,
        IoErrorKind::TimedOut => SysexitsError::EX_IOERR,
        IoErrorKind::UnexpectedEof => SysexitsError::EX_IOERR,
        IoErrorKind::Unsupported => SysexitsError::EX_SOFTWARE,
        IoErrorKind::WouldBlock => SysexitsError::EX_IOERR,
        IoErrorKind::WriteZero => SysexitsError::EX_IOERR,
    }
}

/// Maps a failure with no more specific classification to the generic
/// internal-software-error code.
pub fn classify_generic_failure() -> (r: SysexitsError)
    ensures
        r == SysexitsError::EX_SOFTWARE,
{
    SysexitsError::EX_SOFTWARE
}

/// Law: converting any member to its numeric value and back yields the same
/// member, and so does parsing its symbolic name.
pub proof fn lemma_round_trip(e: SysexitsError)
    ensures
        SysexitsError::from_code(e.code_spec() as int) == Some(e),
        SysexitsError::parse_spec(e.name_spec()) == Ok::<SysexitsError, ()>(e),
{
    reveal_strlit("EX_OK");
    reveal_strlit("EX_USAGE");
    reveal_strlit("EX_DATAERR");
    reveal_strlit("EX_NOINPUT");
    reveal_strlit("EX_NOUSER");
    reveal_strlit("EX_NOHOST");
    reveal_strlit("EX_UNAVAILABLE");
    reveal_strlit("EX_SOFTWARE");
    reveal_strlit("EX_OSERR");
    reveal_strlit("EX_OSFILE");
    reveal_strlit("EX_CANTCREAT");
    reveal_strlit("EX_IOERR");
    reveal_strlit("EX_TEMPFAIL");
    reveal_strlit("EX_PROTOCOL");
    reveal_strlit("EX_NOPERM");
    reveal_strlit("EX_CONFIG");
    match e {
        SysexitsError::EX_OK => {
            assert(SysexitsError::parse_spec("EX_OK"@) == Ok::<SysexitsError, ()>(e));
        },
        SysexitsError::EX_USAGE => {
            assert(SysexitsError::parse_spec("EX_USAGE"@) == Ok::<SysexitsError, ()>(e));
        },
        SysexitsError::EX_DATAERR => {
            assert(SysexitsError::parse_spec("EX_DATAERR"@) == Ok::<SysexitsError, ()>(e));
        },
        SysexitsError::EX_NOINPUT => {
            assert(SysexitsError::parse_spec("EX_NOINPUT"@) == Ok::<SysexitsError, ()>(e));
        },
        SysexitsError::EX_NOUSER => {
            assert(SysexitsError::parse_spec("EX_NOUSER"@) == Ok::<SysexitsError, ()>(e));
        },
        SysexitsError::EX_NOHOST => {
            assert(SysexitsError::parse_spec("EX_NOHOST"@) == Ok::<SysexitsError, ()>(e));
        },
        SysexitsError::EX_UNAVAILABLE => {
            assert(SysexitsError::parse_spec("EX_UNAVAILABLE"@) == Ok::<SysexitsError, ()>(e));
        },
        SysexitsError::EX_SOFTWARE => {
            assert(SysexitsError::parse_spec("EX_SOFTWARE"@) == Ok::<SysexitsError, ()>(e));
        },
        SysexitsError::EX_OSERR => {
            assert(SysexitsError::parse_spec("EX_OSERR"@) == Ok::<SysexitsError, ()>(e));
        },
        SysexitsError::EX_OSFILE => {
            assert(SysexitsError::parse_spec("EX_OSFILE"@) == Ok::<SysexitsError, ()>(e));
        },
        SysexitsError::EX_CANTCREAT => {
            assert(SysexitsError::parse_spec("EX_CANTCREAT"@) == Ok::<SysexitsError, ()>(e));
        },
        SysexitsError::EX_IOERR => {
            assert("EX_IOERR"@ != "EX_USAGE"@) by {
                assert("EX_IOERR"@[3] == 'I' && "EX_USAGE"@[3] == 'U');
            }
            assert("EX_IOERR"@ != "EX_OSERR"@) by {
                assert("EX_IOERR"@[3] == 'I' && "EX_OSERR"@[3] == 'O');
            }
            assert(SysexitsError::parse_spec("EX_IOERR"@) == Ok::<SysexitsError, ()>(e));
        },
        SysexitsError::EX_TEMPFAIL => {
            assert(SysexitsError::parse_spec("EX_TEMPFAIL"@) == Ok::<SysexitsError, ()>(e));
        },
        SysexitsError::EX_PROTOCOL => {
            assert("EX_PROTOCOL"@ != "EX_SOFTWARE"@) by {
                assert("EX_PROTOCOL"@[3] == 'P' && "EX_SOFTWARE"@[3] == 'S');
            }
            assert("EX_PROTOCOL"@ != "EX_TEMPFAIL"@) by {
                assert("EX_PROTOCOL"@[3] == 'P' && "EX_TEMPFAIL"@[3] == 'T');
            }
            assert(SysexitsError::parse_spec("EX_PROTOCOL"@) == Ok::<SysexitsError, ()>(e));
        },
        SysexitsError::EX_NOPERM => {
            assert(SysexitsError::parse_spec("EX_NOPERM"@) == Ok::<SysexitsError, ()>(e));
        },
        SysexitsError::EX_CONFIG => {
            assert(SysexitsError::parse_spec("EX_CONFIG"@) == Ok::<SysexitsError, ()>(e));
        },
    }
}

/// Law: every integer outside the fixed set of sixteen exit-code values has
/// no member, so the numeric conversions reject it and carry it back
/// unchanged.
pub proof fn lemma_unknown_code_rejected(code: int)
    requires
        !SysexitsError::is_defined_code(code),
    ensures
        SysexitsError::from_code(code) is None,
{
}

/// Law: a string that equals no symbolic name and denotes no decimal
/// numeral in the fixed set fails to parse.
pub proof fn lemma_parse_rejects(s: Seq<char>)
    requires
        forall|e: SysexitsError| s != #[trigger] e.name_spec(),
        dec_numeral_u8(s) matches Some(code) ==> !SysexitsError::is_defined_code(code as int),
    ensures
        SysexitsError::parse_spec(s) == Err::<SysexitsError, ()>(()),
{
    assert(s != SysexitsError::EX_OK.name_spec());
    assert(s != SysexitsError::EX_USAGE.name_spec());
    assert(s != SysexitsError::EX_DATAERR.name_spec());
    assert(s != SysexitsError::EX_NOINPUT.name_spec());
    assert(s != SysexitsError::EX_NOUSER.name_spec());
    assert(s != SysexitsError::EX_NOHOST.name_spec());
    assert(s != SysexitsError::EX_UNAVAILABLE.name_spec());
    assert(s != SysexitsError::EX_SOFTWARE.name_spec());
    assert(s != SysexitsError::EX_OSERR.name_spec());
    assert(s != SysexitsError::EX_OSFILE.name_spec());
    assert(s != SysexitsError::EX_CANTCREAT.name_spec());
    assert(s != SysexitsError::EX_IOERR.name_spec());
    assert(s != SysexitsError::EX_TEMPFAIL.name_spec());
    assert(s != SysexitsError::EX_PROTOCOL.name_spec());
    assert(s != SysexitsError::EX_NOPERM.name_spec());
    assert(s != SysexitsError::EX_CONFIG.name_spec());
}

/// Law: success and failure are mutually exclusive and exhaustive, and only
/// `EX_OK` reports success.
pub proof fn lemma_success_xor_failure(e: SysexitsError)
    ensures
        e.is_success_spec() != e.is_failure_spec(),
        e.is_success_spec() <==> e == SysexitsError::EX_OK,
{
}

/// Law: the I/O classification policy is total over the fixed category set,
/// assigns every category a failure code, and sends `Other`, which stands
/// for every unlisted category, to the catch-all `EX_UNAVAILABLE`.
pub proof fn lemma_classify_io_error_failure(kind: IoErrorKind)
    ensures
        classify_io_error_spec(kind).is_failure_spec(),
        classify_io_error_spec(IoErrorKind::Other) == SysexitsError::EX_UNAVAILABLE,
{
}

} // verus!
