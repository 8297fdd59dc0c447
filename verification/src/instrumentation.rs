//! What a trace hands on.

use opentelemetry::trace::SpanContext;
use vstd::prelude::*;

use crate::ids::simple_text;
use crate::table::Table;

verus! {

/// `opentelemetry::trace::TraceId`'s `Display`: all 32 hexadecimal digits, in
/// lower case.
#[verifier::external_body]
fn trace_id_text(trace_id: u128) -> (text: String)
    ensures
        text@ == simple_text(trace_id),
{
    opentelemetry::trace::TraceId::from(trace_id).to_string()
}

/// `opentelemetry::trace::SpanContext::trace_id`, as a number by its big-endian
/// bytes. Nothing is claimed of the number: a context is opaque here.
#[verifier::external_body]
fn trace_id_of(ctx: &SpanContext) -> (trace_id: u128) {
    u128::from_be_bytes(ctx.trace_id().to_bytes())
}

/// Whether `trace_id` is that of the trace that `ctx` belongs to.
pub closed spec fn belongs_to(ctx: SpanContext, trace_id: u128) -> bool {
    call_ensures(trace_id_of, (&ctx,), trace_id)
}

/// Whether `carrier` carries the trace to another process: its identifier under
/// `traceparent`, and nothing else.
pub open spec fn carries(carrier: Map<Seq<char>, String>, trace_id: u128) -> bool {
    &&& carrier.dom() == set!["traceparent"@]
    &&& carrier["traceparent"@]@ == simple_text(trace_id)
}

/// The fields that carry the trace of `ctx` to another process.
pub fn build_carrier(ctx: &SpanContext) -> (carrier: Table<String>)
    ensures
        exists|trace_id: u128| #[trigger]
            belongs_to(*ctx, trace_id) && carries(carrier@, trace_id),
{
    let trace_id = trace_id_of(ctx);
    assert(belongs_to(*ctx, trace_id));
    carrier_for(trace_id)
}

/// The fields that carry a trace to another process.
pub fn carrier_for(trace_id: u128) -> (carrier: Table<String>)
    ensures
        carries(carrier@, trace_id),
{
    let mut carrier = Table::new();
    carrier.insert("traceparent".to_string(), trace_id_text(trace_id));
    assert(carrier@.dom() =~= set!["traceparent"@]);
    carrier
}

} // verus!
