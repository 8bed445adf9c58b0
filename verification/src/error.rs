use vstd::prelude::*;
use vstd::string::StringExecFns;

verus! {

/// The code a call returns when it succeeds.
pub const GEOARROW_OK: i32 = 0;

/// The code a call returns when an argument is invalid (`EINVAL`).
pub const EINVAL: i32 = 22;

/// Why reading the geoarrow type of a schema failed.
#[derive(Debug)]
pub enum SchemaError {
    /// The schema pointer is null.
    SchemaNull,
    /// The pointer to write the result through is null.
    OutTypeNull,
    /// The tree nests deeper than `MAX_DEPTH` levels (or its children graph is cyclic).
    TooDeep,
    /// The release callback is absent: the schema is released or zero-initialized.
    Released,
    /// The format string pointer is null.
    FormatNull,
    /// The format string is not valid UTF-8.
    FormatNotUtf8,
    /// The name string is not valid UTF-8.
    NameNotUtf8,
    /// `n_children` is negative.
    NegativeChildren,
    /// `n_children` is positive but the children array pointer is null.
    ChildrenNull,
    /// The entry at this index of the children array is null.
    ChildNull(u64),
    /// arrow-rs or geoarrow-rs refused the field, with their message.
    Unsupported(String),
}

/// The decimal digit character for `d` (below 10).
pub open spec fn digit_char(d: nat) -> char {
    if d == 0 {
        '0'
    } else if d == 1 {
        '1'
    } else if d == 2 {
        '2'
    } else if d == 3 {
        '3'
    } else if d == 4 {
        '4'
    } else if d == 5 {
        '5'
    } else if d == 6 {
        '6'
    } else if d == 7 {
        '7'
    } else if d == 8 {
        '8'
    } else {
        '9'
    }
}

/// The decimal representation of `n`, without leading zeros.
pub open spec fn decimal(n: nat) -> Seq<char>
    decreases n,
{
    if n < 10 {
        seq![digit_char(n)]
    } else {
        decimal(n / 10).push(digit_char(n % 10))
    }
}

impl SchemaError {
    /// The message reported for this error.
    pub open spec fn spec_message(&self) -> Seq<char> {
        match self {
            SchemaError::SchemaNull => "schema pointer is null"@,
            SchemaError::OutTypeNull => "out_type pointer is null"@,
            SchemaError::TooDeep => "schema nests deeper than 64 levels"@,
            SchemaError::Released => "schema is released or zero-initialized"@,
            SchemaError::FormatNull => "schema format is null"@,
            SchemaError::FormatNotUtf8 => "schema format is not valid UTF-8"@,
            SchemaError::NameNotUtf8 => "schema name is not valid UTF-8"@,
            SchemaError::NegativeChildren => "schema n_children is negative"@,
            SchemaError::ChildrenNull => "schema children pointer is null"@,
            SchemaError::ChildNull(i) => "schema child "@ + decimal(*i as nat) + " is null"@,
            SchemaError::Unsupported(message) => message@,
        }
    }

    /// The message reported for this error.
    pub fn message(&self) -> (r: String)
        ensures
            r@ == self.spec_message(),
    {
        match self {
            SchemaError::SchemaNull => String::from_str("schema pointer is null"),
            SchemaError::OutTypeNull => String::from_str("out_type pointer is null"),
            SchemaError::TooDeep => String::from_str("schema nests deeper than 64 levels"),
            SchemaError::Released => String::from_str("schema is released or zero-initialized"),
            SchemaError::FormatNull => String::from_str("schema format is null"),
            SchemaError::FormatNotUtf8 => String::from_str("schema format is not valid UTF-8"),
            SchemaError::NameNotUtf8 => String::from_str("schema name is not valid UTF-8"),
            SchemaError::NegativeChildren => String::from_str("schema n_children is negative"),
            SchemaError::ChildrenNull => String::from_str("schema children pointer is null"),
            SchemaError::ChildNull(i) => {
                let mut r = String::from_str("schema child ");
                let digits = decimal_string(*i);
                r.append(digits.as_str());
                r.append(" is null");
                r
            },
            SchemaError::Unsupported(message) => message.clone(),
        }
    }

    /// A copy of this error.
    pub fn duplicate(&self) -> (r: SchemaError)
        ensures
            r == *self,
    {
        match self {
            SchemaError::SchemaNull => SchemaError::SchemaNull,
            SchemaError::OutTypeNull => SchemaError::OutTypeNull,
            SchemaError::TooDeep => SchemaError::TooDeep,
            SchemaError::Released => SchemaError::Released,
            SchemaError::FormatNull => SchemaError::FormatNull,
            SchemaError::FormatNotUtf8 => SchemaError::FormatNotUtf8,
            SchemaError::NameNotUtf8 => SchemaError::NameNotUtf8,
            SchemaError::NegativeChildren => SchemaError::NegativeChildren,
            SchemaError::ChildrenNull => SchemaError::ChildrenNull,
            SchemaError::ChildNull(i) => SchemaError::ChildNull(*i),
            SchemaError::Unsupported(message) => SchemaError::Unsupported(message.clone()),
        }
    }

    /// The code returned for this error: every error is an invalid argument.
    pub fn code(&self) -> (r: i32)
        ensures
            r == EINVAL,
    {
        EINVAL
    }
}

/// Every error the library raises itself has a non-empty message; an
/// `Unsupported` error carries the text arrow-rs or geoarrow-rs gave.
pub proof fn lemma_own_messages_not_empty(e: SchemaError)
    requires
        !(e is Unsupported),
    ensures
        e.spec_message().len() > 0,
{
    match e {
        SchemaError::SchemaNull => reveal_strlit("schema pointer is null"),
        SchemaError::OutTypeNull => reveal_strlit("out_type pointer is null"),
        SchemaError::TooDeep => reveal_strlit("schema nests deeper than 64 levels"),
        SchemaError::Released => reveal_strlit("schema is released or zero-initialized"),
        SchemaError::FormatNull => reveal_strlit("schema format is null"),
        SchemaError::FormatNotUtf8 => reveal_strlit("schema format is not valid UTF-8"),
        SchemaError::NameNotUtf8 => reveal_strlit("schema name is not valid UTF-8"),
        SchemaError::NegativeChildren => reveal_strlit("schema n_children is negative"),
        SchemaError::ChildrenNull => reveal_strlit("schema children pointer is null"),
        SchemaError::ChildNull(_) => reveal_strlit("schema child "),
        SchemaError::Unsupported(_) => {},
    }
}

fn digit_str(d: u64) -> (r: &'static str)
    requires
        d < 10,
    ensures
        r@ == seq![digit_char(d as nat)],
{
    if d == 0 {
        proof {
            reveal_strlit("0");
        }
        "0"
    } else if d == 1 {
        proof {
            reveal_strlit("1");
        }
        "1"
    } else if d == 2 {
        proof {
            reveal_strlit("2");
        }
        "2"
    } else if d == 3 {
        proof {
            reveal_strlit("3");
        }
        "3"
    } else if d == 4 {
        proof {
            reveal_strlit("4");
        }
        "4"
    } else if d == 5 {
        proof {
            reveal_strlit("5");
        }
        "5"
    } else if d == 6 {
        proof {
            reveal_strlit("6");
        }
        "6"
    } else if d == 7 {
        proof {
            reveal_strlit("7");
        }
        "7"
    } else if d == 8 {
        proof {
            reveal_strlit("8");
        }
        "8"
    } else {
        proof {
            reveal_strlit("9");
        }
        "9"
    }
}

/// The decimal representation of `n`.
pub fn decimal_string(n: u64) -> (r: String)
    ensures
        r@ == decimal(n as nat),
    decreases n,
{
    if n < 10 {
        String::from_str(digit_str(n))
    } else {
        let mut r = decimal_string(n / 10);
        r.append(digit_str(n % 10));
        r
    }
}

} // verus!
