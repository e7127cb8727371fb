//! Status codes and the terminal status of a call.

use vstd::prelude::*;

verus! {

/// The closed set of status codes that a call can end with.
#[derive(Clone, Copy, Debug, PartialEq, Eq, Structural)]
pub enum Code {
    /// The call succeeded; OK, number 0.
    Success,
    Cancelled,
    Unknown,
    InvalidArgument,
    DeadlineExceeded,
    NotFound,
    AlreadyExists,
    PermissionDenied,
    ResourceExhausted,
    FailedPrecondition,
    Aborted,
    OutOfRange,
    Unimplemented,
    Internal,
    Unavailable,
    DataLoss,
    Unauthenticated,
}

impl Code {
    /// The number that stands for the code on the wire.
    pub open spec fn number(self) -> int {
        match self {
            Code::Success => 0,
            Code::Cancelled => 1,
            Code::Unknown => 2,
            Code::InvalidArgument => 3,
            Code::DeadlineExceeded => 4,
            Code::NotFound => 5,
            Code::AlreadyExists => 6,
            Code::PermissionDenied => 7,
            Code::ResourceExhausted => 8,
            Code::FailedPrecondition => 9,
            Code::Aborted => 10,
            Code::OutOfRange => 11,
            Code::Unimplemented => 12,
            Code::Internal => 13,
            Code::Unavailable => 14,
            Code::DataLoss => 15,
            Code::Unauthenticated => 16,
        }
    }

    /// The code that a number stands for. A number outside the enumeration
    /// is read as `Unknown`.
    pub open spec fn of_number(n: int) -> Code {
        if n == 0 {
            Code::Success
        } else if n == 1 {
            Code::Cancelled
        } else if n == 3 {
            Code::InvalidArgument
        } else if n == 4 {
            Code::DeadlineExceeded
        } else if n == 5 {
            Code::NotFound
        } else if n == 6 {
            Code::AlreadyExists
        } else if n == 7 {
            Code::PermissionDenied
        } else if n == 8 {
            Code::ResourceExhausted
        } else if n == 9 {
            Code::FailedPrecondition
        } else if n == 10 {
            Code::Aborted
        } else if n == 11 {
            Code::OutOfRange
        } else if n == 12 {
            Code::Unimplemented
        } else if n == 13 {
            Code::Internal
        } else if n == 14 {
            Code::Unavailable
        } else if n == 15 {
            Code::DataLoss
        } else if n == 16 {
            Code::Unauthenticated
        } else {
            Code::Unknown
        }
    }

    /// The decimal digits of the code's number, as they stand in a
    /// `grpc-status` header.
    pub open spec fn digits(self) -> Seq<char> {
        let n = self.number();
        if n < 10 {
            seq![Self::digit(n)]
        } else {
            seq![Self::digit(n / 10), Self::digit(n % 10)]
        }
    }

    /// The character of one decimal digit.
    pub open spec fn digit(d: int) -> char {
        if d == 0 {
            '0'
        } else if d == 1 {
            '1'
        } else if d == 2 {
            '2'
        } else if d == 3 {
            '3'
        } else if d == 4 {
            '4'
        } else if d == 5 {
            '5'
        } else if d == 6 {
            '6'
        } else if d == 7 {
            '7'
        } else if d == 8 {
            '8'
        } else {
            '9'
        }
    }

    /// Returns the number that stands for the code on the wire.
    pub fn to_i32(self) -> (n: i32)
        ensures
            n == self.number(),
            0 <= n <= 16,
    {
        match self {
            Code::Success => 0,
            Code::Cancelled => 1,
            Code::Unknown => 2,
            Code::InvalidArgument => 3,
            Code::DeadlineExceeded => 4,
            Code::NotFound => 5,
            Code::AlreadyExists => 6,
            Code::PermissionDenied => 7,
            Code::ResourceExhausted => 8,
            Code::FailedPrecondition => 9,
            Code::Aborted => 10,
            Code::OutOfRange => 11,
            Code::Unimplemented => 12,
            Code::Internal => 13,
            Code::Unavailable => 14,
            Code::DataLoss => 15,
            Code::Unauthenticated => 16,
        }
    }

    /// Returns the code that `n` stands for, `Unknown` where it stands for
    /// none.
    pub fn from_i32(n: i32) -> (code: Code)
        ensures
            code == Code::of_number(n as int),
    {
        match n {
            0 => Code::Success,
            1 => Code::Cancelled,
            3 => Code::InvalidArgument,
            4 => Code::DeadlineExceeded,
            5 => Code::NotFound,
            6 => Code::AlreadyExists,
            7 => Code::PermissionDenied,
            8 => Code::ResourceExhausted,
            9 => Code::FailedPrecondition,
            10 => Code::Aborted,
            11 => Code::OutOfRange,
            12 => Code::Unimplemented,
            13 => Code::Internal,
            14 => Code::Unavailable,
            15 => Code::DataLoss,
            16 => Code::Unauthenticated,
            _ => Code::Unknown,
        }
    }

    /// Returns the decimal digits of the code's number, as they stand in a
    /// `grpc-status` header.
    pub fn header_value(self) -> (text: &'static str)
        ensures
            text@ == self.digits(),
    {
        proof {
            reveal_strlit("0");
            reveal_strlit("1");
            reveal_strlit("2");
            reveal_strlit("3");
            reveal_strlit("4");
            reveal_strlit("5");
            reveal_strlit("6");
            reveal_strlit("7");
            reveal_strlit("8");
            reveal_strlit("9");
            reveal_strlit("10");
            reveal_strlit("11");
            reveal_strlit("12");
            reveal_strlit("13");
            reveal_strlit("14");
            reveal_strlit("15");
            reveal_strlit("16");
        }
        let text = match self {
            Code::Success => "0",
            Code::Cancelled => "1",
            Code::Unknown => "2",
            Code::InvalidArgument => "3",
            Code::DeadlineExceeded => "4",
            Code::NotFound => "5",
            Code::AlreadyExists => "6",
            Code::PermissionDenied => "7",
            Code::ResourceExhausted => "8",
            Code::FailedPrecondition => "9",
            Code::Aborted => "10",
            Code::OutOfRange => "11",
            Code::Unimplemented => "12",
            Code::Internal => "13",
            Code::Unavailable => "14",
            Code::DataLoss => "15",
            Code::Unauthenticated => "16",
        };
        assert(text@ =~= self.digits());
        text
    }

    /// Tells whether the code reports success.
    pub fn is_ok(self) -> (ok: bool)
        ensures
            ok == (self == Code::Success),
    {
        match self {
            Code::Success => true,
            _ => false,
        }
    }
}

/// Every code is found again from its number.
pub proof fn lemma_code_number_round_trip(code: Code)
    ensures
        Code::of_number(code.number()) == code,
        0 <= code.number() <= 16,
{
}

/// Two codes with the same number are the same code.
pub proof fn lemma_code_number_injective(a: Code, b: Code)
    requires
        a.number() == b.number(),
    ensures
        a == b,
{
    lemma_code_number_round_trip(a);
    lemma_code_number_round_trip(b);
}

/// The terminal outcome of a call that did not yield a response: a code and
/// a message for a human reader.
#[derive(Clone, Debug, PartialEq, Eq)]
pub struct Status {
    pub code: Code,
    pub message: String,
}

/// A status as a mathematical value.
pub struct StatusView {
    pub code: Code,
    pub message: Seq<char>,
}

impl View for Status {
    type V = StatusView;

    open spec fn view(&self) -> StatusView {
        StatusView { code: self.code, message: self.message@ }
    }
}

impl Status {
    /// Makes a status from its code and message.
    pub fn new(code: Code, message: String) -> (status: Status)
        ensures
            status@ == (StatusView { code, message: message@ }),
    {
        Status { code, message }
    }

    /// The status that stands for an error which came with the code `code`,
    /// or with none: a reporter that chose no code is given `Unknown`.
    pub open spec fn of_error(code: Option<Code>, message: Seq<char>) -> StatusView {
        StatusView {
            code: match code {
                Some(chosen) => chosen,
                None => Code::Unknown,
            },
            message,
        }
    }

    /// Makes the status that stands for an error, with the code that its
    /// reporter chose, or `Unknown` where it chose none.
    pub fn from_error(code: Option<Code>, message: String) -> (status: Status)
        ensures
            status@ == Status::of_error(code, message@),
    {
        let code = match code {
            Some(chosen) => chosen,
            None => Code::Unknown,
        };
        Status { code, message }
    }

    /// Returns the status code.
    pub fn code(&self) -> (code: Code)
        ensures
            code == self@.code,
    {
        self.code
    }

    /// Returns the message.
    pub fn message(&self) -> (message: &str)
        ensures
            message@ == self@.message,
    {
        self.message.as_str()
    }
}

} // verus!
