use vstd::prelude::*;

verus! {

/// The status that a program reports to the platform when it ends.
///
/// `SUCCESS` is status 0 and `FAILURE` status 1; `Other` carries any other
/// status.
#[allow(non_camel_case_types)]
#[derive(Clone, Copy, Debug)]
pub enum ExitCode {
    SUCCESS,
    FAILURE,
    Other(i32),
}

impl View for ExitCode {
    type V = i32;

    /// The status number.
    open spec fn view(&self) -> i32 {
        match *self {
            ExitCode::SUCCESS => 0,
            ExitCode::FAILURE => 1,
            ExitCode::Other(c) => c,
        }
    }
}

impl ExitCode {
    /// The status number.
    pub fn to_i32(self) -> (r: i32)
        ensures
            r == self@,
    {
        match self {
            ExitCode::SUCCESS => 0,
            ExitCode::FAILURE => 1,
            ExitCode::Other(c) => c,
        }
    }
}

/// The default status is `SUCCESS`.
impl Default for ExitCode {
    fn default() -> (r: Self)
        ensures
            r == ExitCode::SUCCESS,
    {
        ExitCode::SUCCESS
    }
}

impl From<u8> for ExitCode {
    /// The status `code`.
    fn from(code: u8) -> (r: Self)
        ensures
            r@ == code,
    {
        if code == 0 {
            ExitCode::SUCCESS
        } else if code == 1 {
            ExitCode::FAILURE
        } else {
            ExitCode::Other(code as i32)
        }
    }
}

impl vstd::std_specs::convert::FromSpecImpl<u8> for ExitCode {
    open spec fn obeys_from_spec() -> bool {
        true
    }

    open spec fn from_spec(code: u8) -> ExitCode {
        if code == 0 {
            ExitCode::SUCCESS
        } else if code == 1 {
            ExitCode::FAILURE
        } else {
            ExitCode::Other(code as i32)
        }
    }
}

/// What a program's `main` returns, turned into the status it ends with.
pub trait Termination: Sized {
    /// The status that `report` gives.
    spec fn reported(self) -> ExitCode;

    /// The status of the program that returned `self`.
    fn report(self) -> (r: ExitCode)
        ensures
            r == self.reported(),
    ;
}

impl Termination for () {
    open spec fn reported(self) -> ExitCode {
        ExitCode::SUCCESS
    }

    fn report(self) -> (r: ExitCode) {
        ExitCode::SUCCESS
    }
}

/// `Infallible` has no values, so its `report` is never called; it is here
/// so that a `main` returning `Result<Infallible, E>` can end, reporting
/// `FAILURE` through its error. The status named here only makes `reported`
/// total.
impl Termination for core::convert::Infallible {
    open spec fn reported(self) -> ExitCode {
        ExitCode::FAILURE
    }

    fn report(self) -> (r: ExitCode) {
        ExitCode::FAILURE
    }
}

impl Termination for ExitCode {
    open spec fn reported(self) -> ExitCode {
        self
    }

    fn report(self) -> (r: ExitCode) {
        self
    }
}

/// `Ok` reports what its value reports; an error reports `FAILURE`.
impl<T: Termination, E> Termination for Result<T, E> {
    open spec fn reported(self) -> ExitCode {
        match self {
            Ok(v) => v.reported(),
            Err(_) => ExitCode::FAILURE,
        }
    }

    fn report(self) -> (r: ExitCode) {
        match self {
            Ok(v) => v.report(),
            Err(_) => ExitCode::FAILURE,
        }
    }
}

/// A `main` that ends with `Ok(v)` reports what `v` reports, one that ends
/// with an error reports `FAILURE` (status 1); `()` reports `SUCCESS`
/// (status 0), so `Ok(())` reports success; an exit code reports itself.
pub proof fn lemma_result_reports<T: Termination, E>(v: T, e: E, c: ExitCode, x: i32)
    ensures
        Ok::<T, E>(v).reported() == v.reported(),
        Err::<T, E>(e).reported() == ExitCode::FAILURE,
        ().reported() == ExitCode::SUCCESS,
        Ok::<(), E>(()).reported() == ExitCode::SUCCESS,
        c.reported() == c,
        ExitCode::SUCCESS@ == 0,
        ExitCode::FAILURE@ == 1,
        ExitCode::Other(x)@ == x,
{
}

} // verus!
