use vstd::prelude::*;
use wasm_bindgen::JsValue;
use crate::repository::RepoError;
use crate::statement::{BindValue, Statement};

verus! {

#[verifier::external_type_specification]
#[verifier::external_body]
pub struct ExJsValue(JsValue);

#[verifier::external_type_specification]
#[verifier::external_body]
pub struct ExSerdeWasmError(serde_wasm_bindgen::Error);

/// The number that a JS value holds.
pub uninterp spec fn js_number(j: JsValue) -> int;

/// The text that a JS value holds, as Unicode scalar values.
pub uninterp spec fn js_text(j: JsValue) -> Seq<char>;

/// Whether a JS value holds the bound value: the same number, or the same text.
pub open spec fn carries(j: JsValue, v: BindValue) -> bool {
    match v {
        BindValue::Int(n) => js_number(j) == n as int,
        BindValue::Text(t) => js_text(j) == t@,
    }
}

/// Relies on `serde_wasm_bindgen::to_value` for an `i32`: its serializer turns the
/// number into a JS number (`v.into()`) and never fails.
#[verifier::external_body]
fn int_to_js(v: i32) -> (r: Result<JsValue, serde_wasm_bindgen::Error>)
    ensures
        r is Ok,
        r matches Ok(j) ==> js_number(j) == v as int,
{
    serde_wasm_bindgen::to_value(&v)
}

/// Relies on `serde_wasm_bindgen::to_value` for a `String`: its serializer turns
/// the text into a JS string (`v.into()`) and never fails.
#[verifier::external_body]
fn text_to_js(t: &String) -> (r: Result<JsValue, serde_wasm_bindgen::Error>)
    ensures
        r is Ok,
        r matches Ok(j) ==> js_text(j) == t@,
{
    serde_wasm_bindgen::to_value(t)
}

impl Statement {
    /// The bound values in the backend's form, in placeholder order; a value that
    /// cannot be converted fails the whole statement with the column it binds.
    /// It runs only on wasm32: elsewhere wasm-bindgen cannot create a `JsValue`
    /// and panics.
    pub fn js_values(&self) -> (r: Result<Vec<JsValue>, RepoError>)
        requires
            self.wf(),
        ensures
            r is Ok,
            r matches Ok(js) ==> js@.len() == self.values@.len(),
            r matches Ok(js) ==> forall|i: int|
                0 <= i < js@.len() ==> carries(#[trigger] js@[i], self.values@[i]),
    {
        let mut out: Vec<JsValue> = Vec::new();
        let mut i: usize = 0;
        while i < self.values.len()
            invariant
                self.wf(),
                i <= self.values@.len(),
                out@.len() == i,
                forall|k: int| 0 <= k < i ==> carries(#[trigger] out@[k], self.values@[k]),
            decreases self.values@.len() - i,
        {
            let converted = match &self.values[i] {
                BindValue::Int(v) => int_to_js(*v),
                BindValue::Text(t) => text_to_js(t),
            };
            match converted {
                Ok(js) => out.push(js),
                Err(_) => return Err(RepoError::ParameterMarshalError(self.fields[i])),
            }
            i = i + 1;
        }
        Ok(out)
    }
}

} // verus!
