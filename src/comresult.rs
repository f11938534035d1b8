//! The result envelope that every answer carries.

use vstd::prelude::*;

verus! {

/// The model of an optional string.
pub open spec fn opt_view(o: Option<String>) -> Option<Seq<char>> {
    match o {
        Some(s) => Some(s@),
        None => None,
    }
}

/// The model of a result envelope.
pub struct ComResultModel {
    pub status: u32,
    pub code: Seq<char>,
    pub info: Seq<char>,
    pub info2: Option<Seq<char>>,
    pub info3: Option<Seq<char>>,
    pub errno: Option<Seq<char>>,
    pub bereich: Option<Seq<char>>,
    pub errnotxt: Option<Seq<char>>,
}

/// The result envelope: a status, a code and an info text, with optional
/// further details that are left out of the wire form when absent.
#[derive(Debug)]
pub struct ComResult {
    /// The numeric status, an HTTP status code.
    pub status: u32,
    /// The code text, such as `200 OK`.
    pub code: String,
    /// A human-readable description.
    pub info: String,
    /// A second description.
    pub info2: Option<String>,
    /// A third description.
    pub info3: Option<String>,
    /// The error number.
    pub errno: Option<String>,
    /// The area that reports the result.
    pub bereich: Option<String>,
    /// The text of the error number.
    pub errnotxt: Option<String>,
}

impl View for ComResult {
    type V = ComResultModel;

    open spec fn view(&self) -> ComResultModel {
        ComResultModel {
            status: self.status,
            code: self.code@,
            info: self.info@,
            info2: opt_view(self.info2),
            info3: opt_view(self.info3),
            errno: opt_view(self.errno),
            bereich: opt_view(self.bereich),
            errnotxt: opt_view(self.errnotxt),
        }
    }
}

/// The model of an envelope with the three required fields and no other.
pub open spec fn plain_result(status: u32, code: Seq<char>, info: Seq<char>) -> ComResultModel {
    ComResultModel {
        status,
        code,
        info,
        info2: None,
        info3: None,
        errno: None,
        bereich: None,
        errnotxt: None,
    }
}

impl ComResult {
    /// An envelope with the three required fields and no optional one.
    pub fn new(status: u32, code: &str, info: &str) -> (r: ComResult)
        ensures
            r@ == plain_result(status, code@, info@),
    {
        ComResult {
            status,
            code: code.to_owned(),
            info: info.to_owned(),
            info2: None,
            info3: None,
            errno: None,
            bereich: None,
            errnotxt: None,
        }
    }
}

/// The status of the HTTP answer for an envelope status: the status itself
/// where it is a valid HTTP status code (three digits), else 500.
pub open spec fn http_status_of(status: u32) -> u16 {
    if 100 <= status <= 999 {
        status as u16
    } else {
        500
    }
}

/// An answer: the envelope and a body whose fields stand beside it on the wire.
#[derive(Debug)]
pub struct ServiceResponse<T> {
    /// The envelope.
    pub comresult: ComResult,
    /// The body.
    pub body: T,
}

impl<T> ServiceResponse<T> {
    /// The status of the HTTP answer: the envelope's status where it is a
    /// valid HTTP status code, else 500.
    pub fn http_status(&self) -> (r: u16)
        ensures
            r == http_status_of(self.comresult.status),
    {
        let status = self.comresult.status;
        if 100 <= status && status <= 999 {
            status as u16
        } else {
            500
        }
    }
}

/// The model of a builder: the fields set so far.
pub struct ComResultBuilderModel {
    pub status: Option<u32>,
    pub code: Option<Seq<char>>,
    pub info: Option<Seq<char>>,
    pub info2: Option<Seq<char>>,
    pub info3: Option<Seq<char>>,
    pub errno: Option<Seq<char>>,
    pub bereich: Option<Seq<char>>,
    pub errnotxt: Option<Seq<char>>,
}

/// Builds an envelope field by field.
#[derive(Debug)]
pub struct ComResultBuilder {
    status: Option<u32>,
    code: Option<String>,
    info: Option<String>,
    info2: Option<String>,
    info3: Option<String>,
    errno: Option<String>,
    bereich: Option<String>,
    errnotxt: Option<String>,
}

/// Why a builder could not build an envelope: a required field was not set.
#[derive(Debug, Clone, Copy, PartialEq, Eq, Structural)]
pub enum BuildError {
    /// No status was set.
    MissingStatus,
    /// No code was set.
    MissingCode,
    /// No info was set.
    MissingInfo,
}

impl BuildError {
    /// The message of the error.
    pub fn message(&self) -> (r: &'static str)
        ensures
            r@ == match self {
                BuildError::MissingStatus => "status is required"@,
                BuildError::MissingCode => "code is required"@,
                BuildError::MissingInfo => "info is required"@,
            },
    {
        match self {
            BuildError::MissingStatus => "status is required",
            BuildError::MissingCode => "code is required",
            BuildError::MissingInfo => "info is required",
        }
    }
}

impl View for ComResultBuilder {
    type V = ComResultBuilderModel;

    closed spec fn view(&self) -> ComResultBuilderModel {
        ComResultBuilderModel {
            status: self.status,
            code: opt_view(self.code),
            info: opt_view(self.info),
            info2: opt_view(self.info2),
            info3: opt_view(self.info3),
            errno: opt_view(self.errno),
            bereich: opt_view(self.bereich),
            errnotxt: opt_view(self.errnotxt),
        }
    }
}

impl Default for ComResultBuilder {
    /// A builder with no field set.
    fn default() -> (r: ComResultBuilder)
        ensures
            r@ == (ComResultBuilderModel {
                status: None,
                code: None,
                info: None,
                info2: None,
                info3: None,
                errno: None,
                bereich: None,
                errnotxt: None,
            }),
    {
        ComResultBuilder::new()
    }
}

impl ComResultBuilder {
    /// A builder with no field set.
    pub fn new() -> (r: ComResultBuilder)
        ensures
            r@ == (ComResultBuilderModel {
                status: None,
                code: None,
                info: None,
                info2: None,
                info3: None,
                errno: None,
                bereich: None,
                errnotxt: None,
            }),
    {
        ComResultBuilder {
            status: None,
            code: None,
            info: None,
            info2: None,
            info3: None,
            errno: None,
            bereich: None,
            errnotxt: None,
        }
    }

    /// A builder with only the status set, to an HTTP status code.
    pub fn with_status(status: u16) -> (r: ComResultBuilder)
        ensures
            r@ == (ComResultBuilderModel {
                status: Some(status as u32),
                code: None,
                info: None,
                info2: None,
                info3: None,
                errno: None,
                bereich: None,
                errnotxt: None,
            }),
    {
        ComResultBuilder::new().status(status as u32)
    }

    /// Sets the status.
    pub fn status(self, status: u32) -> (r: ComResultBuilder)
        ensures
            r@ == (ComResultBuilderModel { status: Some(status), ..self@ }),
    {
        ComResultBuilder { status: Some(status), ..self }
    }

    /// Sets the code.
    pub fn code(self, code: &str) -> (r: ComResultBuilder)
        ensures
            r@ == (ComResultBuilderModel { code: Some(code@), ..self@ }),
    {
        ComResultBuilder { code: Some(code.to_owned()), ..self }
    }

    /// Sets the info.
    pub fn info(self, info: &str) -> (r: ComResultBuilder)
        ensures
            r@ == (ComResultBuilderModel { info: Some(info@), ..self@ }),
    {
        ComResultBuilder { info: Some(info.to_owned()), ..self }
    }

    /// Sets the second info.
    pub fn info2(self, info2: &str) -> (r: ComResultBuilder)
        ensures
            r@ == (ComResultBuilderModel { info2: Some(info2@), ..self@ }),
    {
        ComResultBuilder { info2: Some(info2.to_owned()), ..self }
    }

    /// Sets the third info.
    pub fn info3(self, info3: &str) -> (r: ComResultBuilder)
        ensures
            r@ == (ComResultBuilderModel { info3: Some(info3@), ..self@ }),
    {
        ComResultBuilder { info3: Some(info3.to_owned()), ..self }
    }

    /// Sets the error number.
    pub fn errno(self, errno: &str) -> (r: ComResultBuilder)
        ensures
            r@ == (ComResultBuilderModel { errno: Some(errno@), ..self@ }),
    {
        ComResultBuilder { errno: Some(errno.to_owned()), ..self }
    }

    /// Sets the reporting area.
    pub fn bereich(self, bereich: &str) -> (r: ComResultBuilder)
        ensures
            r@ == (ComResultBuilderModel { bereich: Some(bereich@), ..self@ }),
    {
        ComResultBuilder { bereich: Some(bereich.to_owned()), ..self }
    }

    /// Sets the text of the error number.
    pub fn errnotxt(self, errnotxt: &str) -> (r: ComResultBuilder)
        ensures
            r@ == (ComResultBuilderModel { errnotxt: Some(errnotxt@), ..self@ }),
    {
        ComResultBuilder { errnotxt: Some(errnotxt.to_owned()), ..self }
    }

    /// The envelope of the fields set; fails on the first of status, code and
    /// info, in that order, that was not set.
    pub fn build(self) -> (r: Result<ComResult, BuildError>)
        ensures
            self@.status is None ==> r == Err::<ComResult, BuildError>(BuildError::MissingStatus),
            self@.status is Some && self@.code is None ==> r == Err::<ComResult, BuildError>(
                BuildError::MissingCode,
            ),
            self@.status is Some && self@.code is Some && self@.info is None ==> r == Err::<
                ComResult,
                BuildError,
            >(BuildError::MissingInfo),
            r matches Ok(c) ==> c@ == (ComResultModel {
                status: self@.status->0,
                code: self@.code->0,
                info: self@.info->0,
                info2: self@.info2,
                info3: self@.info3,
                errno: self@.errno,
                bereich: self@.bereich,
                errnotxt: self@.errnotxt,
            }),
            self@.status is Some && self@.code is Some && self@.info is Some ==> r is Ok,
    {
        let status = match self.status {
            Some(s) => s,
            None => {
                return Err(BuildError::MissingStatus);
            },
        };
        let code = match self.code {
            Some(c) => c,
            None => {
                return Err(BuildError::MissingCode);
            },
        };
        let info = match self.info {
            Some(i) => i,
            None => {
                return Err(BuildError::MissingInfo);
            },
        };
        Ok(
            ComResult {
                status,
                code,
                info,
                info2: self.info2,
                info3: self.info3,
                errno: self.errno,
                bereich: self.bereich,
                errnotxt: self.errnotxt,
            },
        )
    }
}

} // verus!
