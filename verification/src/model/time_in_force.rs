use vstd::prelude::*;
use vstd::string::*;

verus! {

/// How long a limit order may rest. The engine carries the tag on the order and does
/// not act on it.
#[derive(Debug, Clone, Copy, Eq, PartialEq)]
pub enum TimeInForce {
    GoodTillCancelled,
    ImmediateOrCancel,
    FillOrKill,
}

impl TimeInForce {
    /// The three letters that stand for the tag.
    pub open spec fn code(self) -> Seq<char> {
        match self {
            TimeInForce::GoodTillCancelled => seq!['G', 'T', 'C'],
            TimeInForce::ImmediateOrCancel => seq!['I', 'O', 'C'],
            TimeInForce::FillOrKill => seq!['F', 'O', 'K'],
        }
    }

    /// The tag that `code` stands for, if it stands for one.
    pub open spec fn of_code(code: Seq<char>) -> Option<TimeInForce> {
        if code == TimeInForce::GoodTillCancelled.code() {
            Some(TimeInForce::GoodTillCancelled)
        } else if code == TimeInForce::ImmediateOrCancel.code() {
            Some(TimeInForce::ImmediateOrCancel)
        } else if code == TimeInForce::FillOrKill.code() {
            Some(TimeInForce::FillOrKill)
        } else {
            None
        }
    }

    /// What `parse` answers to a text that stands for no tag.
    pub open spec fn unknown_value(text: Seq<char>) -> Seq<char> {
        "unknown time in force value: "@ + text
    }

    pub fn as_str(&self) -> (r: &'static str)
        ensures
            r@ == self.code(),
    {
        proof {
            reveal_strlit("GTC");
            reveal_strlit("IOC");
            reveal_strlit("FOK");
        }
        let r = match self {
            TimeInForce::GoodTillCancelled => "GTC",
            TimeInForce::ImmediateOrCancel => "IOC",
            TimeInForce::FillOrKill => "FOK",
        };
        assert(r@ =~= self.code());
        r
    }

    /// The tag as an owned string.
    pub fn to_text(&self) -> (r: String)
        ensures
            r@ == self.code(),
    {
        String::from_str(self.as_str())
    }

    /// Reads a tag from its three letters.
    pub fn parse(s: &str) -> (r: Result<TimeInForce, String>)
        ensures
            match r {
                Ok(tag) => TimeInForce::of_code(s@) == Some(tag),
                Err(message) => TimeInForce::of_code(s@) is None && message@
                    == TimeInForce::unknown_value(s@),
            },
    {
        if s.unicode_len() == 3 {
            let a = s.get_char(0);
            let b = s.get_char(1);
            let c = s.get_char(2);
            assert(s@ =~= seq![a, b, c]);
            if a == 'G' && b == 'T' && c == 'C' {
                return Ok(TimeInForce::GoodTillCancelled);
            }
            if a == 'I' && b == 'O' && c == 'C' {
                return Ok(TimeInForce::ImmediateOrCancel);
            }
            if a == 'F' && b == 'O' && c == 'K' {
                return Ok(TimeInForce::FillOrKill);
            }
            assert(s@ != TimeInForce::GoodTillCancelled.code()) by {
                if s@ == TimeInForce::GoodTillCancelled.code() {
                    assert(s@[0] == 'G' && s@[1] == 'T' && s@[2] == 'C');
                }
            }
            assert(s@ != TimeInForce::ImmediateOrCancel.code()) by {
                if s@ == TimeInForce::ImmediateOrCancel.code() {
                    assert(s@[0] == 'I' && s@[1] == 'O' && s@[2] == 'C');
                }
            }
            assert(s@ != TimeInForce::FillOrKill.code()) by {
                if s@ == TimeInForce::FillOrKill.code() {
                    assert(s@[0] == 'F' && s@[1] == 'O' && s@[2] == 'K');
                }
            }
        } else {
            assert(TimeInForce::GoodTillCancelled.code().len() == 3);
            assert(TimeInForce::ImmediateOrCancel.code().len() == 3);
            assert(TimeInForce::FillOrKill.code().len() == 3);
        }
        Err(String::from_str("unknown time in force value: ").concat(s))
    }
}

impl Default for TimeInForce {
    fn default() -> (r: Self)
        ensures
            r == TimeInForce::GoodTillCancelled,
    {
        TimeInForce::GoodTillCancelled
    }
}

impl std::str::FromStr for TimeInForce {
    type Err = String;

    /// Reads a tag from its three letters, as `parse` does.
    fn from_str(s: &str) -> (r: Result<Self, Self::Err>)
        ensures
            match r {
                Ok(tag) => TimeInForce::of_code(s@) == Some(tag),
                Err(message) => TimeInForce::of_code(s@) is None && message@
                    == TimeInForce::unknown_value(s@),
            },
    {
        TimeInForce::parse(s)
    }
}

} // verus!
