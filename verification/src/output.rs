use vstd::prelude::*;
use crate::error::CliError;
use crate::text::{push_str, string_from};

verus! {

/// How command results are printed.
#[derive(Clone, Copy, Debug, PartialEq, Eq, Structural)]
pub enum OutputFormat {
    Json,
    Table,
}

impl OutputFormat {
    /// The format asked for: `json` or anything else (table); with no
    /// choice, a table on a terminal and JSON otherwise.
    pub fn resolve(explicit: Option<&str>, stdout_is_terminal: bool) -> (f: OutputFormat)
        ensures
            f == (match explicit {
                Some(s) => if s@ == "json"@ { OutputFormat::Json } else { OutputFormat::Table },
                None => if stdout_is_terminal { OutputFormat::Table } else { OutputFormat::Json },
            }),
    {
        match explicit {
            Some(s) => if crate::text::str_eq(s, "json") { OutputFormat::Json } else { OutputFormat::Table },
            None => if stdout_is_terminal { OutputFormat::Table } else { OutputFormat::Json },
        }
    }
}

impl CliError {
    /// The error as printed in table mode: the message, then the
    /// suggestion when there is one, each on its own line.
    pub fn table_text(&self) -> (r: String)
        ensures
            r@ == "error: "@ + self.message@ + "\n"@ + (match self.suggestion {
                Some(s) => "suggestion: "@ + s@ + "\n"@,
                None => Seq::<char>::empty(),
            }),
    {
        let mut r = string_from("error: ");
        push_str(&mut r, self.message.as_str());
        push_str(&mut r, "\n");
        match &self.suggestion {
            Some(s) => {
                push_str(&mut r, "suggestion: ");
                push_str(&mut r, s.as_str());
                push_str(&mut r, "\n");
            },
            None => {},
        }
        r
    }
}

} // verus!
