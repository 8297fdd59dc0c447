//! The channel handles and trace contexts that messages carry. The library
//! passes them on and sees nothing inside them.

use vstd::prelude::*;

verus! {

/// `tokio::sync::mpsc::Sender`: where the answers to a player go.
#[verifier::external_type_specification]
#[verifier::external_body]
#[verifier::reject_recursive_types(T)]
pub struct ExMpscSender<T>(tokio::sync::mpsc::Sender<T>);

/// `tokio::sync::oneshot::Sender`: where one reply goes.
#[verifier::external_type_specification]
#[verifier::external_body]
#[verifier::reject_recursive_types(T)]
pub struct ExOneshotSender<T>(tokio::sync::oneshot::Sender<T>);

/// `tokio::sync::broadcast::Sender`: the sending side of a topic.
#[verifier::external_type_specification]
#[verifier::external_body]
#[verifier::reject_recursive_types(T)]
pub struct ExBroadcastSender<T>(tokio::sync::broadcast::Sender<T>);

/// `tokio::sync::broadcast::Receiver`: a subscription to a topic.
#[verifier::external_type_specification]
#[verifier::external_body]
#[verifier::reject_recursive_types(T)]
pub struct ExBroadcastReceiver<T>(tokio::sync::broadcast::Receiver<T>);

/// `opentelemetry::trace::SpanContext`: the trace that an operation belongs to.
#[verifier::external_type_specification]
#[verifier::external_body]
pub struct ExSpanContext(opentelemetry::trace::SpanContext);

} // verus!
