//! The shared logger: the one instance that call sites use where they hold
//! no logger of their own.
//!
//! `GlobalLogger` is that instance as a value. Whoever shares it between
//! threads keeps it behind a lock and hands it to the three operations
//! below, which are all that reach the logger inside.

use crate::config::Config;
use crate::logger::{Logger, LoggerView};
use vstd::prelude::*;

verus! {

/// The shared logger instance.
#[derive(Debug)]
pub struct GlobalLogger {
    logger: Logger,
}

impl GlobalLogger {
    /// The logger that the instance holds.
    pub closed spec fn current(&self) -> Logger {
        self.logger
    }

    /// The instance after its logger was replaced by `logger`.
    pub closed spec fn replaced(&self, logger: Logger) -> GlobalLogger {
        GlobalLogger { logger }
    }

    /// The instance as it is before any logger was set: it holds
    /// `Logger::new()`.
    pub fn new() -> (g: GlobalLogger)
        ensures
            g.current()@ == (LoggerView {
                config: Config::defaults(g.current().config.use_colors),
                context: Seq::empty(),
            }),
    {
        GlobalLogger { logger: Logger::new() }
    }
}

/// Replaces the shared logger by `logger`.
pub fn set_global_logger(global: &mut GlobalLogger, logger: Logger)
    ensures
        *final(global) == old(global).replaced(logger),
        final(global).current() == logger,
{
    global.logger = logger;
}

/// A copy of the shared logger.
pub fn global_logger(global: &GlobalLogger) -> (r: Logger)
    ensures
        r@ == global.current()@,
        r.context@ == global.current().context@,
{
    global.logger.clone()
}

/// Runs `f` on the shared logger.
pub fn with_global_logger<F: FnOnce(&Logger)>(global: &GlobalLogger, f: F)
    requires
        call_requires(f, (&global.current(),)),
    ensures
        call_ensures(f, (&global.current(),), ()),
{
    f(&global.logger)
}

/// After a logger was set, the shared logger is that logger, whatever it
/// was before: what `global_logger` then gives has its settings and its
/// context.
pub proof fn lemma_set_then_get(global: GlobalLogger, logger: Logger)
    ensures
        global.replaced(logger).current() == logger,
        global.replaced(logger).current()@ == logger@,
        global.replaced(logger).current().context@ == logger.context@,
{
}

} // verus!
