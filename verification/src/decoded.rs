//! Decoded data that complements a recorded trace.

use vstd::prelude::*;

verus! {

/// The contents of a list of strings.
pub open spec fn strings(v: Seq<String>) -> Seq<Seq<char>> {
    v.map_values(|s: String| s@)
}

/// The contents of an optional list of strings.
pub open spec fn opt_strings(v: Option<Vec<String>>) -> Option<Seq<Seq<char>>> {
    match v {
        Some(v) => Some(strings(v@)),
        None => None,
    }
}

/// The contents of an optional string.
pub open spec fn opt_chars(s: Option<String>) -> Option<Seq<char>> {
    match s {
        Some(s) => Some(s@),
        None => None,
    }
}

/// The contents of a list of named values.
pub open spec fn pairs(v: Seq<(String, String)>) -> Seq<(Seq<char>, Seq<char>)> {
    v.map_values(|p: (String, String)| (p.0@, p.1@))
}

fn clone_opt_string(s: &Option<String>) -> (r: Option<String>)
    ensures
        opt_chars(r) == opt_chars(*s),
{
    match s {
        Some(s) => Some(s.clone()),
        None => None,
    }
}

fn clone_strings(v: &Vec<String>) -> (r: Vec<String>)
    ensures
        strings(r@) == strings(v@),
{
    let r = v.clone();
    assert(strings(r@) =~= strings(v@));
    r
}

fn clone_opt_strings(v: &Option<Vec<String>>) -> (r: Option<Vec<String>>)
    ensures
        opt_strings(r) == opt_strings(*v),
{
    match v {
        Some(v) => Some(clone_strings(v)),
        None => None,
    }
}

fn clone_pairs(v: &Vec<(String, String)>) -> (r: Vec<(String, String)>)
    ensures
        pairs(r@) == pairs(v@),
{
    let mut r: Vec<(String, String)> = Vec::new();
    while r.len() < v.len()
        invariant
            r@.len() <= v@.len(),
            forall|i: int| 0 <= i < r@.len() ==> pairs(r@)[i] == pairs(v@)[i],
        decreases v@.len() - r@.len(),
    {
        let (name, value) = &v[r.len()];
        r.push((name.clone(), value.clone()));
    }
    assert(pairs(r@) =~= pairs(v@));
    r
}

/// Decoded call data.
#[derive(Debug, Default, PartialEq, Eq)]
pub struct DecodedCallData {
    /// The function signature.
    pub signature: String,
    /// The function arguments.
    pub args: Vec<String>,
}

/// The contents of a [`DecodedCallData`].
pub struct DecodedCallDataView {
    /// The function signature.
    pub signature: Seq<char>,
    /// The function arguments.
    pub args: Seq<Seq<char>>,
}

impl View for DecodedCallData {
    type V = DecodedCallDataView;

    open spec fn view(&self) -> DecodedCallDataView {
        DecodedCallDataView { signature: self.signature@, args: strings(self.args@) }
    }
}

impl Clone for DecodedCallData {
    fn clone(&self) -> (r: Self)
        ensures
            r@ == self@,
    {
        DecodedCallData { signature: self.signature.clone(), args: clone_strings(&self.args) }
    }
}

/// Additional decoded data of a call.
#[derive(Debug, PartialEq, Eq)]
pub struct DecodedCallTrace {
    /// Optional decoded label for the call.
    pub label: Option<String>,
    /// Optional decoded return data.
    pub return_data: Option<String>,
    /// Optional decoded call data.
    pub call_data: Option<DecodedCallData>,
}

/// The contents of a [`DecodedCallTrace`].
pub struct DecodedCallTraceView {
    /// Optional decoded label for the call.
    pub label: Option<Seq<char>>,
    /// Optional decoded return data.
    pub return_data: Option<Seq<char>>,
    /// Optional decoded call data.
    pub call_data: Option<DecodedCallDataView>,
}

impl View for DecodedCallTrace {
    type V = DecodedCallTraceView;

    open spec fn view(&self) -> DecodedCallTraceView {
        DecodedCallTraceView {
            label: opt_chars(self.label),
            return_data: opt_chars(self.return_data),
            call_data: match self.call_data {
                Some(data) => Some(data@),
                None => None,
            },
        }
    }
}

impl Default for DecodedCallTrace {
    fn default() -> (r: Self)
        ensures
            r == (DecodedCallTrace { label: None, return_data: None, call_data: None }),
    {
        DecodedCallTrace { label: None, return_data: None, call_data: None }
    }
}

impl Clone for DecodedCallTrace {
    fn clone(&self) -> (r: Self)
        ensures
            r@ == self@,
    {
        DecodedCallTrace {
            label: clone_opt_string(&self.label),
            return_data: clone_opt_string(&self.return_data),
            call_data: match &self.call_data {
                Some(data) => Some(data.clone()),
                None => None,
            },
        }
    }
}

/// Additional decoded data of a log.
#[derive(Debug, PartialEq, Eq)]
pub struct DecodedCallLog {
    /// The decoded event name.
    pub name: Option<String>,
    /// The decoded log parameters, a vector of the parameter name (e.g. foo) and the parameter
    /// value (e.g. 0x9d3...45ca).
    pub params: Option<Vec<(String, String)>>,
}

/// The contents of a [`DecodedCallLog`].
pub struct DecodedCallLogView {
    /// The decoded event name.
    pub name: Option<Seq<char>>,
    /// The decoded log parameters.
    pub params: Option<Seq<(Seq<char>, Seq<char>)>>,
}

impl View for DecodedCallLog {
    type V = DecodedCallLogView;

    open spec fn view(&self) -> DecodedCallLogView {
        DecodedCallLogView {
            name: opt_chars(self.name),
            params: match self.params {
                Some(params) => Some(pairs(params@)),
                None => None,
            },
        }
    }
}

impl Default for DecodedCallLog {
    fn default() -> (r: Self)
        ensures
            r == (DecodedCallLog { name: None, params: None }),
    {
        DecodedCallLog { name: None, params: None }
    }
}

impl Clone for DecodedCallLog {
    fn clone(&self) -> (r: Self)
        ensures
            r@ == self@,
    {
        DecodedCallLog {
            name: clone_opt_string(&self.name),
            params: match &self.params {
                Some(params) => Some(clone_pairs(params)),
                None => None,
            },
        }
    }
}

/// A decoded internal function call.
#[derive(Debug, PartialEq, Eq)]
pub struct DecodedInternalCall {
    /// Name of the internal function.
    pub func_name: String,
    /// Input arguments of the internal function.
    pub args: Option<Vec<String>>,
    /// Optional decoded return data.
    pub return_data: Option<Vec<String>>,
}

/// The contents of a [`DecodedInternalCall`].
pub struct DecodedInternalCallView {
    /// Name of the internal function.
    pub func_name: Seq<char>,
    /// Input arguments of the internal function.
    pub args: Option<Seq<Seq<char>>>,
    /// Optional decoded return data.
    pub return_data: Option<Seq<Seq<char>>>,
}

impl View for DecodedInternalCall {
    type V = DecodedInternalCallView;

    open spec fn view(&self) -> DecodedInternalCallView {
        DecodedInternalCallView {
            func_name: self.func_name@,
            args: opt_strings(self.args),
            return_data: opt_strings(self.return_data),
        }
    }
}

impl Clone for DecodedInternalCall {
    fn clone(&self) -> (r: Self)
        ensures
            r@ == self@,
    {
        DecodedInternalCall {
            func_name: self.func_name.clone(),
            args: clone_opt_strings(&self.args),
            return_data: clone_opt_strings(&self.return_data),
        }
    }
}

/// A decoded trace step. Two formats are supported.
#[derive(Debug, PartialEq, Eq)]
pub enum DecodedTraceStep {
    /// Decoded internal function call. Displayed similarly to external calls.
    ///
    /// Keeps decoded internal call data and the index of the detailed step where the internal call
    /// execution ends: an index into the call's detail overlay, as a
    /// [`crate::node::TraceMemberOrder::Step`] entry carries and
    /// [`crate::trace::CallTrace::detailed_step`] resolves.
    InternalCall(DecodedInternalCall, usize),
    /// Arbitrary line representing the step. Might be used for displaying individual opcodes.
    Line(String),
}

/// The contents of a [`DecodedTraceStep`].
pub enum DecodedTraceStepView {
    /// An internal call, and the index of the detailed step where it ends.
    InternalCall(DecodedInternalCallView, usize),
    /// A line.
    Line(Seq<char>),
}

impl View for DecodedTraceStep {
    type V = DecodedTraceStepView;

    open spec fn view(&self) -> DecodedTraceStepView {
        match self {
            DecodedTraceStep::InternalCall(call, end) => DecodedTraceStepView::InternalCall(
                call@,
                *end,
            ),
            DecodedTraceStep::Line(line) => DecodedTraceStepView::Line(line@),
        }
    }
}

impl Clone for DecodedTraceStep {
    fn clone(&self) -> (r: Self)
        ensures
            r@ == self@,
    {
        match self {
            DecodedTraceStep::InternalCall(call, end) => DecodedTraceStep::InternalCall(
                call.clone(),
                *end,
            ),
            DecodedTraceStep::Line(line) => DecodedTraceStep::Line(line.clone()),
        }
    }
}

} // verus!
