use vstd::prelude::*;
use crate::svc::screensaver::ScreensaverState;
use crate::svc::screensaver::ScreensaverSvc;

verus! {

/// The number of pictures that a listing holds where no limit is asked for.
pub const DEFAULT_PAGE_LIMIT: i32 = 100;

/// The slideshow's state as the query interface gives it out, in the 32-bit integers that
/// the interface has.
#[derive(Debug, Clone, Copy, PartialEq, Eq, Structural)]
pub struct ScreensaverStatus {
    pub is_running: bool,
    pub current_index: i32,
    pub upload_count: i32,
    pub interval_seconds: i32,
}

/// Why a query or a command was refused.
#[derive(Debug, Clone, Copy, PartialEq, Eq, Structural)]
pub enum FieldError {
    /// There is no slideshow to ask or to command.
    ServiceUnavailable,
    /// The interval asked for is zero or negative.
    IntervalNotPositive,
}

impl FieldError {
    /// The text that the error is reported with.
    pub open spec fn text(self) -> Seq<char> {
        match self {
            FieldError::ServiceUnavailable => "Screensaver service not available"@,
            FieldError::IntervalNotPositive => "Interval must be positive"@,
        }
    }

    /// The text that the error is reported with.
    pub fn message(&self) -> (text: &'static str)
        ensures
            text@ == self.text(),
    {
        match self {
            FieldError::ServiceUnavailable => "Screensaver service not available",
            FieldError::IntervalNotPositive => "Interval must be positive",
        }
    }
}

impl ScreensaverStatus {
    /// The status that stands for a state: each number cut to its low 32 bits, which
    /// leaves every number below 2^31 as it is.
    pub open spec fn of(state: ScreensaverState) -> ScreensaverStatus {
        ScreensaverStatus {
            is_running: state.is_running,
            current_index: state.current_index as i32,
            upload_count: state.upload_count as i32,
            interval_seconds: state.interval_seconds as i32,
        }
    }

    /// The status that stands for a state.
    pub fn from_state(state: ScreensaverState) -> (status: ScreensaverStatus)
        ensures
            status == Self::of(state),
            status.is_running == state.is_running,
            state.current_index <= 0x7fff_ffff ==> status.current_index == state.current_index,
            state.upload_count <= 0x7fff_ffff ==> status.upload_count == state.upload_count,
            state.interval_seconds <= 0x7fff_ffff ==> status.interval_seconds
                == state.interval_seconds,
    {
        ScreensaverStatus {
            is_running: state.is_running,
            current_index: state.current_index as i32,
            upload_count: state.upload_count as i32,
            interval_seconds: state.interval_seconds as i32,
        }
    }
}

/// The queries of the control surface.
pub struct Query;

/// The commands of the control surface.
pub struct Mutation;

impl Query {
    /// The window of a listing: the limit asked for, or a hundred, and the offset asked
    /// for, or none.
    pub fn list_uploads(limit: Option<i32>, offset: Option<i32>) -> (window: (i64, i64))
        ensures
            window.0 == match limit {
                Some(l) => l as int,
                None => 100,
            },
            window.1 == match offset {
                Some(o) => o as int,
                None => 0,
            },
    {
        let limit: i32 = match limit {
            Some(l) => l,
            None => DEFAULT_PAGE_LIMIT,
        };
        let offset: i32 = match offset {
            Some(o) => o,
            None => 0,
        };
        (limit as i64, offset as i64)
    }

    /// The slideshow's status, where there is a slideshow.
    pub fn screensaver_status(screensaver: Option<&ScreensaverSvc>) -> (r: Result<
        ScreensaverStatus,
        FieldError,
    >)
        ensures
            match screensaver {
                Some(svc) => r == Ok::<ScreensaverStatus, FieldError>(
                    ScreensaverStatus::of(svc@),
                ),
                None => r == Err::<ScreensaverStatus, FieldError>(FieldError::ServiceUnavailable),
            },
    {
        match screensaver {
            Some(svc) => Ok(ScreensaverStatus::from_state(svc.get_state())),
            None => Err(FieldError::ServiceUnavailable),
        }
    }
}

impl Mutation {
    /// Halts the slideshow, where there is one.
    pub fn pause_screensaver(screensaver: Option<&mut ScreensaverSvc>) -> (r: Result<
        bool,
        FieldError,
    >)
        ensures
            match screensaver {
                Some(svc) => r == Ok::<bool, FieldError>(true) && final(svc)@
                    == svc@.with_running(false),
                None => r == Err::<bool, FieldError>(FieldError::ServiceUnavailable),
            },
    {
        match screensaver {
            Some(svc) => {
                svc.pause();
                Ok(true)
            },
            None => Err(FieldError::ServiceUnavailable),
        }
    }

    /// Sets the slideshow going again, where there is one.
    pub fn resume_screensaver(screensaver: Option<&mut ScreensaverSvc>) -> (r: Result<
        bool,
        FieldError,
    >)
        ensures
            match screensaver {
                Some(svc) => r == Ok::<bool, FieldError>(true) && final(svc)@
                    == svc@.with_running(true),
                None => r == Err::<bool, FieldError>(FieldError::ServiceUnavailable),
            },
    {
        match screensaver {
            Some(svc) => {
                svc.resume();
                Ok(true)
            },
            None => Err(FieldError::ServiceUnavailable),
        }
    }

    /// Steps the slideshow forward among the `count` pictures that are eligible now, where
    /// there is a slideshow. The answer holds the position of the picture to show, if any.
    pub fn next_image(screensaver: Option<&mut ScreensaverSvc>, count: usize) -> (r: Result<
        Option<usize>,
        FieldError,
    >)
        ensures
            match screensaver {
                Some(svc) => final(svc)@ == svc@.advanced(count) && r == Ok::<
                    Option<usize>,
                    FieldError,
                >(svc@.shown_after_advance(count)),
                None => r == Err::<Option<usize>, FieldError>(FieldError::ServiceUnavailable),
            },
    {
        match screensaver {
            Some(svc) => Ok(svc.advance_to_next_image(count)),
            None => Err(FieldError::ServiceUnavailable),
        }
    }

    /// Steps the slideshow back among the `count` pictures that are eligible now, where
    /// there is a slideshow. The answer holds the position of the picture to show, if any.
    pub fn previous_image(screensaver: Option<&mut ScreensaverSvc>, count: usize) -> (r: Result<
        Option<usize>,
        FieldError,
    >)
        ensures
            match screensaver {
                Some(svc) => final(svc)@ == svc@.rewound(count) && r == Ok::<
                    Option<usize>,
                    FieldError,
                >(svc@.shown_after_rewind(count)),
                None => r == Err::<Option<usize>, FieldError>(FieldError::ServiceUnavailable),
            },
    {
        match screensaver {
            Some(svc) => Ok(svc.go_to_previous_image(count)),
            None => Err(FieldError::ServiceUnavailable),
        }
    }

    /// Checks a command to set the slideshow's interval: there must be a slideshow, and
    /// the interval must be positive. The answer is the interval to store and then to set.
    pub fn set_screensaver_interval(available: bool, seconds: i32) -> (r: Result<u64, FieldError>)
        ensures
            r == if !available {
                Err::<u64, FieldError>(FieldError::ServiceUnavailable)
            } else if seconds <= 0 {
                Err::<u64, FieldError>(FieldError::IntervalNotPositive)
            } else {
                Ok::<u64, FieldError>(seconds as u64)
            },
    {
        if !available {
            Err(FieldError::ServiceUnavailable)
        } else if seconds <= 0 {
            Err(FieldError::IntervalNotPositive)
        } else {
            Ok(seconds as u64)
        }
    }
}

} // verus!
