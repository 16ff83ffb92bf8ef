use vstd::prelude::*;

verus! {

/// How much the program logs, from least to most.
#[derive(Clone, Copy, Debug, PartialEq, Eq, Structural)]
pub enum LogLevel {
    Error,
    Info,
    Debug,
    Trace,
}

/// Command-line options shared by the programs of this crate.
#[derive(Clone, Debug)]
pub struct OptsCommon {
    pub verbose: bool,
    pub debug: bool,
    pub trace: bool,
    pub bot_config: String,
}

/// The level that the flags select: the most verbose flag that is set wins.
pub open spec fn level_of(verbose: bool, debug: bool, trace: bool) -> LogLevel {
    if trace {
        LogLevel::Trace
    } else if debug {
        LogLevel::Debug
    } else if verbose {
        LogLevel::Info
    } else {
        LogLevel::Error
    }
}

/// Relies on shellexpand::full: it replaces `~` and `$VAR` from the process
/// environment, and hands back a text with neither of them unchanged.
#[verifier::external_body]
fn expand_full(s: &str) -> (r: Option<String>)
    ensures
        (forall|i: int| 0 <= i < s@.len() ==> s@[i] != '$' && s@[i] != '~') ==> (r is Some
            && r->0@ == s@),
{
    match shellexpand::full(s) {
        Ok(c) => Some(c.into_owned()),
        Err(_) => None,
    }
}

impl OptsCommon {
    /// Expands `~` and environment variables in the configuration path.
    /// Fails, leaving the options as they were, when a variable is unset.
    pub fn finish(&mut self) -> (r: Result<(), String>)
        ensures
            final(self).verbose == old(self).verbose,
            final(self).debug == old(self).debug,
            final(self).trace == old(self).trace,
            r is Err ==> final(self).bot_config@ == old(self).bot_config@,
            (forall|i: int|
                0 <= i < old(self).bot_config@.len() ==> old(self).bot_config@[i] != '$'
                    && old(self).bot_config@[i] != '~') ==> (r is Ok && final(self).bot_config@
                == old(self).bot_config@),
    {
        match expand_full(self.bot_config.as_str()) {
            Some(s) => {
                self.bot_config = s;
                Ok(())
            },
            None => Err("cannot expand the configuration path".to_owned()),
        }
    }

    /// The log level that the flags ask for.
    pub fn get_loglevel(&self) -> (r: LogLevel)
        ensures
            r == level_of(self.verbose, self.debug, self.trace),
    {
        if self.trace {
            LogLevel::Trace
        } else if self.debug {
            LogLevel::Debug
        } else if self.verbose {
            LogLevel::Info
        } else {
            LogLevel::Error
        }
    }
}

} // verus!
