//! Process-wide configuration of the decode engine: global options and the
//! one log handler. It is an object that the host creates once and passes
//! where it is needed.
use vstd::prelude::*;

verus! {

/// A global option of the decode engine.
#[derive(Debug, PartialEq, Eq)]
pub struct GlobalOption {
    pub key: String,
    pub value: String,
}

/// `callback` can be called with every log line.
pub open spec fn accepts_log_lines<L: Fn(i32, String)>(callback: L) -> bool {
    forall|level: i32, text: String| call_requires(callback, (level, text))
}

/// The slot of the log handler. A handler that was installed stays for the
/// life of the process and is never given up; a later one is refused.
pub struct LogHandler<L: Fn(i32, String)> {
    callback: Option<L>,
}

impl<L: Fn(i32, String)> LogHandler<L> {
    #[verifier::type_invariant]
    spec fn inv(&self) -> bool {
        self.callback matches Some(cb) ==> accepts_log_lines(cb)
    }

    /// The handler, if one is installed.
    pub closed spec fn installed(&self) -> Option<L> {
        self.callback
    }

    /// An empty slot.
    pub fn new() -> (slot: Self)
        ensures
            slot.installed() is None,
    {
        LogHandler { callback: None }
    }

    /// Installs `cb`, which must accept every log line, if the slot is
    /// empty, and says whether it did. Where a handler is installed
    /// already, it stays and `cb` is dropped.
    pub fn install(&mut self, cb: L) -> (installed: bool)
        requires
            accepts_log_lines(cb),
        ensures
            installed == old(self).installed() is None,
            final(self).installed() == (if installed {
                Some(cb)
            } else {
                old(self).installed()
            }),
    {
        proof {
            use_type_invariant(&*self);
        }
        if self.callback.is_none() {
            self.callback = Some(cb);
            true
        } else {
            false
        }
    }

    /// Whether a handler is installed.
    pub fn is_installed(&self) -> (installed: bool)
        ensures
            installed == self.installed() is Some,
    {
        self.callback.is_some()
    }

    /// Hands one log line to the handler, which stays installed. Returns
    /// whether there was a handler to hand it to.
    pub fn log(&self, level: i32, text: String) -> (delivered: bool)
        ensures
            delivered == self.installed() is Some,
            self.installed() matches Some(cb) ==> call_ensures(cb, (level, text), ()),
    {
        proof {
            use_type_invariant(self);
        }
        match &self.callback {
            Some(cb) => {
                cb(level, text);
                true
            },
            None => false,
        }
    }
}

/// Configuration of the decode engine for the whole process: the options
/// that the host has not taken yet, oldest first, and the log handler.
pub struct ProcessConfig<L: Fn(i32, String)> {
    pub options: Vec<GlobalOption>,
    pub log_handler: LogHandler<L>,
}

impl<L: Fn(i32, String)> ProcessConfig<L> {
    /// A configuration without options and without a log handler.
    pub fn new() -> (config: Self)
        ensures
            config.options@ == Seq::<GlobalOption>::empty(),
            config.log_handler.installed() is None,
    {
        ProcessConfig { options: Vec::new(), log_handler: LogHandler::new() }
    }

    /// Queues the option `key` with the value `val`.
    pub fn set_global_option(&mut self, key: String, val: String)
        ensures
            final(self).options@ == old(self).options@.push(GlobalOption { key, value: val }),
            final(self).log_handler == old(self).log_handler,
    {
        self.options.push(GlobalOption { key, value: val });
    }

    /// Takes the pending options, oldest first, and leaves none.
    pub fn take_options(&mut self) -> (taken: Vec<GlobalOption>)
        ensures
            taken@ == old(self).options@,
            final(self).options@ == Seq::<GlobalOption>::empty(),
            final(self).log_handler == old(self).log_handler,
    {
        let mut taken: Vec<GlobalOption> = Vec::new();
        core::mem::swap(&mut self.options, &mut taken);
        taken
    }

    /// Installs `cb`, which must accept every log line, as the log handler
    /// if none is installed yet, and says whether it did.
    pub fn set_log_handler(&mut self, cb: L) -> (installed: bool)
        requires
            accepts_log_lines(cb),
        ensures
            installed == old(self).log_handler.installed() is None,
            final(self).log_handler.installed() == (if installed {
                Some(cb)
            } else {
                old(self).log_handler.installed()
            }),
            final(self).options == old(self).options,
    {
        self.log_handler.install(cb)
    }
}

} // verus!
