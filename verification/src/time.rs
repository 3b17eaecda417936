//! The game clock: when the game started, the time of the current frame and
//! the length of the last frame, in milliseconds since the Unix epoch. The
//! application reads the system clock and hands the reading in.
use vstd::prelude::*;

use crate::error::{is_misc_error, NUError};

verus! {

/// The length that the first frame is given, so that nothing divides by a
/// zero frame time.
pub const FIRST_FRAME_MS: u128 = 16;

/// The game clock.
pub struct TimeGod {
    start_time_ms: u128,
    current_time_ms: u128,
    delta_time_ms: u128,
}

impl TimeGod {
    /// The start of the game.
    pub closed spec fn start_ms(&self) -> int {
        self.start_time_ms as int
    }

    /// The time of the current frame.
    pub closed spec fn current_ms(&self) -> int {
        self.current_time_ms as int
    }

    /// The length of the last frame.
    pub closed spec fn delta_ms(&self) -> int {
        self.delta_time_ms as int
    }

    #[verifier::type_invariant]
    closed spec fn inv(&self) -> bool {
        &&& self.start_time_ms <= self.current_time_ms
        &&& self.delta_time_ms <= self.current_time_ms - self.start_time_ms
    }

    /// A clock whose current frame is at `now_ms` and lasted
    /// `FIRST_FRAME_MS`.
    pub fn start(now_ms: u128) -> (res: TimeGod)
        requires
            now_ms >= FIRST_FRAME_MS,
        ensures
            res.current_ms() == now_ms,
            res.delta_ms() == FIRST_FRAME_MS,
            res.start_ms() == now_ms - FIRST_FRAME_MS,
    {
        let delta_time_ms = FIRST_FRAME_MS;
        let start_time_ms = now_ms - delta_time_ms;
        TimeGod { start_time_ms, current_time_ms: now_ms, delta_time_ms }
    }

    /// The time since the start, in milliseconds.
    pub fn run_time_ms(&self) -> (res: u128)
        ensures
            res == self.current_ms() - self.start_ms(),
    {
        proof {
            use_type_invariant(self);
        }
        self.current_time_ms - self.start_time_ms
    }

    /// The length of the last frame, in milliseconds; it never exceeds the
    /// time since the start.
    pub fn delta_time_ms(&self) -> (res: u128)
        ensures
            res == self.delta_ms(),
            res <= self.current_ms() - self.start_ms(),
    {
        proof {
            use_type_invariant(self);
        }
        self.delta_time_ms
    }

    /// Moves the clock to `now_ms`: the last frame lasted from the previous
    /// reading to this one. The clock must not go backwards.
    pub fn advance(&mut self, now_ms: u128)
        requires
            now_ms >= old(self).current_ms(),
        ensures
            final(self).current_ms() == now_ms,
            final(self).delta_ms() == now_ms - old(self).current_ms(),
            final(self).start_ms() == old(self).start_ms(),
    {
        proof {
            use_type_invariant(&*self);
        }
        *self = TimeGod {
            start_time_ms: self.start_time_ms,
            current_time_ms: now_ms,
            delta_time_ms: now_ms - self.current_time_ms,
        };
    }
}

/// Starts the clock at `now_ms`, with a first frame of `FIRST_FRAME_MS`; an
/// error if the clock exists already.
pub fn init(tg: &mut Option<TimeGod>, now_ms: u128) -> (res: Result<(), NUError>)
    requires
        now_ms >= FIRST_FRAME_MS,
    ensures
        *old(tg) is Some ==> res is Err && is_misc_error(res->Err_0, "TIME_GOD already init"@)
            && *final(tg) == *old(tg),
        *old(tg) is None ==> res is Ok && *final(tg) is Some && (*final(tg))->0.current_ms()
            == now_ms && (*final(tg))->0.delta_ms() == FIRST_FRAME_MS && (*final(tg))->0.start_ms()
            == now_ms - FIRST_FRAME_MS,
{
    if tg.is_some() {
        return Err(NUError::misc("TIME_GOD already init"));
    }
    *tg = Some(TimeGod::start(now_ms));
    Ok(())
}

fn uninit() -> (res: NUError)
    ensures
        is_misc_error(res, "TIME_GOD uninit"@),
{
    NUError::misc("TIME_GOD uninit")
}

/// The time since the start, in milliseconds.
pub fn get_run_time_ms(tg: &Option<TimeGod>) -> (res: Result<u128, NUError>)
    ensures
        *tg is None ==> res is Err && is_misc_error(res->Err_0, "TIME_GOD uninit"@),
        *tg is Some ==> res is Ok && res->Ok_0 == tg->0.current_ms() - tg->0.start_ms(),
{
    match tg {
        None => Err(uninit()),
        Some(g) => Ok(g.run_time_ms()),
    }
}

/// The length of the last frame, in milliseconds; it never exceeds the
/// time since the start.
pub fn get_delta_time_ms(tg: &Option<TimeGod>) -> (res: Result<u128, NUError>)
    ensures
        *tg is None ==> res is Err && is_misc_error(res->Err_0, "TIME_GOD uninit"@),
        *tg is Some ==> res is Ok && res->Ok_0 == tg->0.delta_ms() && res->Ok_0 <= tg->0.current_ms()
            - tg->0.start_ms(),
{
    match tg {
        None => Err(uninit()),
        Some(g) => Ok(g.delta_time_ms()),
    }
}

/// Advances the clock to `now_ms`: the last frame lasted from the previous
/// reading to this one. The clock must not go backwards.
pub fn update_time(tg: &mut Option<TimeGod>, now_ms: u128) -> (res: Result<(), NUError>)
    requires
        *old(tg) is Some ==> now_ms >= (*old(tg))->0.current_ms(),
    ensures
        *old(tg) is None ==> res is Err && is_misc_error(res->Err_0, "TIME_GOD uninit"@)
            && *final(tg) == *old(tg),
        *old(tg) is Some ==> res is Ok && *final(tg) is Some && (*final(tg))->0.current_ms()
            == now_ms && (*final(tg))->0.delta_ms() == now_ms - (*old(tg))->0.current_ms()
            && (*final(tg))->0.start_ms() == (*old(tg))->0.start_ms(),
{
    match tg {
        None => Err(uninit()),
        Some(g) => {
            g.advance(now_ms);
            Ok(())
        },
    }
}

} // verus!
