//! Typed request/response shapes of the daemon's RPC surface, and their
//! marshalling to and from the flat tuple form the transport carries.
//!
//! Each method gets a closed pair of input/output types, decoded once at the
//! transport boundary, so the dispatcher's method bodies work on ordinary
//! typed values. The transport itself (connection, proxy, serving loop) lives
//! outside the library.

use vstd::prelude::*;
use crate::strutil::str_eq;

verus! {

/// Inputs of the `Open` method: the URI to resolve and open.
#[derive(Debug)]
pub struct OpenCmdInputs {
    pub uri: String,
}

impl OpenCmdInputs {
    pub fn from_dbus_input(input: (String,)) -> (r: Self)
        ensures
            r.uri == input.0,
    {
        OpenCmdInputs { uri: input.0 }
    }

    pub fn to_dbus_input(&self) -> (r: (String,))
        ensures
            r.0 == self.uri,
    {
        (self.uri.clone(),)
    }
}

/// Outputs of the `Open` method.
#[derive(Debug)]
pub struct OpenCmdOutputs {
    pub status: OpenCmdOutputsStatus,
}

impl OpenCmdOutputs {
    pub fn to_dbus_output(&self) -> (r: (String,))
        ensures
            r.0@ == self.status.status_string(),
    {
        (self.status.to_status_string(),)
    }

    pub fn from_dbus_output(output: (String,)) -> (r: Result<Self, ToggleStatusParseError>)
        ensures
            r is Ok <==> (output.0@ == "fallbacked"@ || output.0@ == "launched"@),
            r is Ok ==> r->Ok_0.status.status_string() == output.0@,
            r is Err ==> r->Err_0 == OpenCmdOutputsStatus::parse_error(output.0),
    {
        let status = match OpenCmdOutputsStatus::try_from(output.0) {
            Ok(status) => status,
            Err(e) => {
                return Err(e);
            },
        };
        Ok(OpenCmdOutputs { status })
    }
}

/// Outcome of an `Open` request.
#[derive(Debug, Clone, PartialEq, Eq, Structural)]
pub enum OpenCmdOutputsStatus {
    /// No application was launched, the UI was engaged instead.
    Fallbacked,
    /// An application was launched.
    Launched,
}

impl OpenCmdOutputsStatus {
    /// The wire word for each outcome.
    pub open spec fn status_string(self) -> Seq<char> {
        match self {
            OpenCmdOutputsStatus::Fallbacked => "fallbacked"@,
            OpenCmdOutputsStatus::Launched => "launched"@,
        }
    }

    /// The error `try_from` reports for a string that is no wire word.
    pub open spec fn parse_error(s: String) -> ToggleStatusParseError {
        if s@.len() == 0 {
            ToggleStatusParseError::EmptyString
        } else {
            ToggleStatusParseError::UnknownStatus(s)
        }
    }

    pub fn to_status_string(&self) -> (r: String)
        ensures
            r@ == self.status_string(),
    {
        match self {
            OpenCmdOutputsStatus::Fallbacked => "fallbacked".to_owned(),
            OpenCmdOutputsStatus::Launched => "launched".to_owned(),
        }
    }

    /// Parses a wire word back into an outcome; anything else is reported,
    /// distinguishing the empty string from an unknown word.
    pub fn try_from(s: String) -> (r: Result<Self, ToggleStatusParseError>)
        ensures
            r is Ok <==> (s@ == "fallbacked"@ || s@ == "launched"@),
            r is Ok ==> r->Ok_0.status_string() == s@,
            r is Err ==> r->Err_0 == Self::parse_error(s),
    {
        proof {
            reveal_strlit("fallbacked");
            reveal_strlit("launched");
        }
        if str_eq(s.as_str(), "fallbacked") {
            Ok(OpenCmdOutputsStatus::Fallbacked)
        } else if str_eq(s.as_str(), "launched") {
            Ok(OpenCmdOutputsStatus::Launched)
        } else if s.as_str().is_empty() {
            Err(ToggleStatusParseError::EmptyString)
        } else {
            Err(ToggleStatusParseError::UnknownStatus(s))
        }
    }
}

/// Failure to parse an `Open` outcome from its wire form.
#[derive(Debug, PartialEq)]
pub enum ToggleStatusParseError {
    UnknownStatus(String),
    EmptyString,
}

impl ToggleStatusParseError {
    /// A human-readable account of the failure.
    pub fn describe(&self) -> (r: String)
        ensures
            match self {
                ToggleStatusParseError::UnknownStatus(s) => r@ == "Unknown status: "@ + s@,
                ToggleStatusParseError::EmptyString => r@ == "Empty string provided"@,
            },
    {
        match self {
            ToggleStatusParseError::UnknownStatus(s) => {
                "Unknown status: ".to_owned().concat(s.as_str())
            },
            ToggleStatusParseError::EmptyString => "Empty string provided".to_owned(),
        }
    }
}

/// Inputs of the `Status` method (none).
#[derive(Debug)]
pub struct StatusCmdInputs {}

impl StatusCmdInputs {
    pub fn from_dbus_input(_input: ()) -> Self {
        StatusCmdInputs {  }
    }

    pub fn to_dbus_input(&self) {
    }
}

/// Outputs of the `Status` method: every configured application with its
/// display data, and the current default application id (if any).
#[derive(Debug)]
pub struct StatusCmdOutputs {
    pub applications: Vec<StatusCmdOutputApplication>,
    pub default_application_id: Option<String>,
}

impl StatusCmdOutputs {
    /// Flattens to the wire form: one `(id, name, icon)` triple per
    /// application, in order, and the default id or `""` for none.
    pub fn to_dbus_output(&self) -> (r: (Vec<(String, String, String)>, String))
        ensures
            r.0@.len() == self.applications@.len(),
            forall|i: int|
                #![auto]
                0 <= i < self.applications@.len() ==> {
                    &&& r.0@[i].0 == self.applications@[i].id
                    &&& r.0@[i].1 == self.applications@[i].name
                    &&& r.0@[i].2 == self.applications@[i].icon
                },
            match self.default_application_id {
                Some(id) => r.1 == id,
                None => r.1@ == Seq::<char>::empty(),
            },
    {
        let mut apps: Vec<(String, String, String)> = Vec::new();
        let n = self.applications.len();
        for i in 0..n
            invariant
                n == self.applications@.len(),
                apps@.len() == i,
                forall|j: int|
                    #![auto]
                    0 <= j < i ==> {
                        &&& apps@[j].0 == self.applications@[j].id
                        &&& apps@[j].1 == self.applications@[j].name
                        &&& apps@[j].2 == self.applications@[j].icon
                    },
        {
            let app = &self.applications[i];
            apps.push((app.id.clone(), app.name.clone(), app.icon.clone()));
        }
        let default_id = match &self.default_application_id {
            Some(id) => id.clone(),
            None => String::new(),
        };
        (apps, default_id)
    }

    /// Rebuilds the typed form from the wire form; an empty default id means
    /// "no default set". Never fails.
    pub fn from_dbus_output(output: (Vec<(String, String, String)>, String)) -> (r: Result<
        Self,
        (),
    >)
        ensures
            r is Ok,
            r->Ok_0.applications@.len() == output.0@.len(),
            forall|i: int|
                #![auto]
                0 <= i < output.0@.len() ==> {
                    &&& r->Ok_0.applications@[i].id == output.0@[i].0
                    &&& r->Ok_0.applications@[i].name == output.0@[i].1
                    &&& r->Ok_0.applications@[i].icon == output.0@[i].2
                },
            r->Ok_0.default_application_id == (if output.1@.len() == 0 {
                Option::<String>::None
            } else {
                Option::<String>::Some(output.1)
            }),
    {
        let (triples, default_raw) = output;
        let mut applications: Vec<StatusCmdOutputApplication> = Vec::new();
        let n = triples.len();
        for i in 0..n
            invariant
                n == triples@.len(),
                applications@.len() == i,
                forall|j: int|
                    #![auto]
                    0 <= j < i ==> {
                        &&& applications@[j].id == triples@[j].0
                        &&& applications@[j].name == triples@[j].1
                        &&& applications@[j].icon == triples@[j].2
                    },
        {
            let triple = &triples[i];
            applications.push(
                StatusCmdOutputApplication {
                    id: triple.0.clone(),
                    name: triple.1.clone(),
                    icon: triple.2.clone(),
                },
            );
        }
        let default_application_id = if default_raw.as_str().is_empty() {
            None
        } else {
            Some(default_raw)
        };
        Ok(StatusCmdOutputs { applications, default_application_id })
    }
}

/// One application entry of a `Status` response.
#[derive(Debug, Clone)]
pub struct StatusCmdOutputApplication {
    pub id: String,
    pub name: String,
    pub icon: String,
}

/// Inputs of the `Kill` method (none).
#[derive(Debug)]
pub struct KillCmdInputs {}

impl KillCmdInputs {
    pub fn from_dbus_input(_input: ()) -> Self {
        Self {  }
    }

    pub fn to_dbus_input(&self) {
    }
}

/// Outputs of the `Kill` method (none: the response is the acknowledgment).
#[derive(Debug)]
pub struct KillCmdOutputs {}

impl KillCmdOutputs {
    pub fn to_dbus_output(&self) {
    }

    pub fn from_dbus_output(_output: ()) -> (r: Result<Self, ()>)
        ensures
            r is Ok,
    {
        Ok(Self {  })
    }
}

/// Inputs of the `SetDefault` method: the rule index to make the default,
/// or any negative value to clear it.
#[derive(Debug)]
pub struct SetDefaultCmdInputs {
    pub index: i64,
}

impl SetDefaultCmdInputs {
    pub fn from_dbus_input(input: (i64,)) -> (r: Self)
        ensures
            r.index == input.0,
    {
        Self { index: input.0 }
    }

    pub fn to_dbus_input(&self) -> (r: (i64,))
        ensures
            r.0 == self.index,
    {
        (self.index,)
    }
}

/// Outputs of the `SetDefault` method (none: the response is the
/// acknowledgment; an out-of-range index is reported as a call failure).
#[derive(Debug)]
pub struct SetDefaultCmdOutputs {}

impl SetDefaultCmdOutputs {
    pub fn to_dbus_output(&self) {
    }

    pub fn from_dbus_output(_output: ()) -> (r: Result<Self, ()>)
        ensures
            r is Ok,
    {
        Ok(Self {  })
    }
}

} // verus!
