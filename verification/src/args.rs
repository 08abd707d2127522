use vstd::prelude::*;

verus! {

/// How much the host's logging backend should report.  The library itself
/// never logs; drivers carry this choice through to whatever sink they use.
#[derive(Debug, Copy, Clone, PartialEq, Eq, Structural)]
pub enum LogLevel {
    Off,
    Error,
    Warn,
    Info,
    Debug,
    Trace,
}

/// The command-line surface a driver offers: the ROM image path, the log
/// level, and hexadecimal start values for the program counter and for the
/// two stack pointers.
pub struct Args {
    pub file: String,
    pub log_level: LogLevel,
    pub program_counter: String,
    pub user_stack_pointer: Option<String>,
    pub system_stack_pointer: Option<String>,
}

impl Args {
    /// Arguments for a plain run of one image: warnings logged, the program
    /// counter starting at zero, the stack pointers at their power-on places.
    pub fn new(file: String) -> (r: Args)
        ensures
            r.file@ == file@,
            r.log_level == LogLevel::Warn,
            r.program_counter@ == "00"@,
            r.user_stack_pointer is None,
            r.system_stack_pointer is None,
    {
        proof {
            reveal_strlit("00");
        }
        Args {
            file,
            log_level: LogLevel::Warn,
            program_counter: "00".to_string(),
            user_stack_pointer: None,
            system_stack_pointer: None,
        }
    }
}

} // verus!
