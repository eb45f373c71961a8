use vstd::prelude::*;

use crate::decimal::dec_seq;
use crate::decimal::i32_to_decimal;
use crate::decimal::int_dec_seq;
use crate::decimal::u64_to_decimal;
use crate::errors::GatewayFault;
use crate::errors::NotifyFault;
use crate::errors::PersistenceFault;
use crate::errors::WorkflowError;
use crate::notification::NotificationMessage;
use crate::order::OrderStatus;
use crate::order::ServiceOrder;
use crate::payment::PaymentResult;
use crate::payment::PaymentStatus;
use crate::user::User;

verus! {

/// The inbound request to settle payment for one order.
#[derive(Clone, Debug, PartialEq)]
pub struct ProcessPaymentCommand {
    pub order_id: i32,
    pub payment_token: String,
}

/// What a completed settlement reports back to the caller.
#[derive(Clone, Debug, PartialEq)]
pub struct ProcessPaymentResult {
    pub order_id: i32,
    pub transaction_id: String,
    pub status: String,
}

/// The charge the driver must hand to the payment gateway: the order's
/// full price, in the fixed settlement currency, against the caller's
/// token.
#[derive(Clone, Debug, PartialEq)]
pub struct ChargeRequest {
    pub amount: u64,
    pub currency: String,
    pub token: String,
}

/// Everything the world answers during one settlement run, as values.
///
/// The driver that owns the real repository and gateways performs the
/// steps one by one; a later field is only consulted when the run gets
/// that far.
#[derive(Debug, PartialEq)]
pub struct SettlementEnv {
    /// The repository's answer when the order is loaded.
    pub found: Result<Option<ServiceOrder>, PersistenceFault>,
    /// The gateway's answer to the charge, if one is issued.
    pub charge: Result<PaymentResult, GatewayFault>,
    /// The repository's answer to the status update, if one is issued.
    pub update: Result<ServiceOrder, PersistenceFault>,
    /// The repository's answer when the customer is looked up.
    pub customer: Result<Option<User>, PersistenceFault>,
    /// The notification provider's answer, if a message is sent.
    pub notify: Result<(), NotifyFault>,
}

/// What one settlement run did: which outbound calls it issued, with
/// their exact arguments, and what it returned.
#[derive(Debug, PartialEq)]
pub struct SettlementTrace {
    /// The charge handed to the payment gateway, if any.
    pub charge_call: Option<ChargeRequest>,
    /// The order written back to the repository, if any.
    pub update_call: Option<ServiceOrder>,
    /// The message handed to the notification provider, if any.
    pub notify_call: Option<NotificationMessage>,
    /// The settlement outcome reported to the caller.
    pub result: Result<ProcessPaymentResult, WorkflowError>,
}

/// The text of the message sent after a successful settlement.
pub open spec fn payment_body(order_id: i32, total_price: u64) -> Seq<char> {
    "Payment for order #"@ + int_dec_seq(order_id as int) + " successful. Total: "@ + dec_seq(
        total_price as nat,
    )
}

/// How the load step answers: the order to charge, or the failure that
/// ends the run.
pub open spec fn order_phase(
    found: Result<Option<ServiceOrder>, PersistenceFault>,
    r: Result<ServiceOrder, WorkflowError>,
) -> bool {
    match found {
        Err(_) => r == Err::<ServiceOrder, WorkflowError>(WorkflowError::PersistenceError),
        Ok(None) => r == Err::<ServiceOrder, WorkflowError>(WorkflowError::NotFound),
        Ok(Some(order)) => if order.status == OrderStatus::Paid {
            r == Err::<ServiceOrder, WorkflowError>(WorkflowError::AlreadyPaid)
        } else {
            r == Ok::<ServiceOrder, WorkflowError>(order)
        },
    }
}

/// How the charge step answers: the paid order to persist together with
/// the provider's transaction id, or the failure that ends the run.
pub open spec fn charge_phase(
    order: ServiceOrder,
    outcome: Result<PaymentResult, GatewayFault>,
    r: Result<(ServiceOrder, String), WorkflowError>,
) -> bool {
    match outcome {
        Err(_) => r == Err::<(ServiceOrder, String), WorkflowError>(
            WorkflowError::PaymentGatewayError,
        ),
        Ok(payment) => if payment.status != PaymentStatus::Successful {
            r == Err::<(ServiceOrder, String), WorkflowError>(WorkflowError::PaymentFailed)
        } else {
            r == Ok::<(ServiceOrder, String), WorkflowError>(
                (order.with_status(OrderStatus::Paid), payment.transaction_id),
            )
        },
    }
}

/// How the persist step answers: the run continues with the in-memory
/// paid order, or ends with `PersistenceError`.
pub open spec fn persist_phase(
    order: ServiceOrder,
    transaction_id: String,
    persisted: Result<ServiceOrder, PersistenceFault>,
    r: Result<(ServiceOrder, String), WorkflowError>,
) -> bool {
    match persisted {
        Err(_) => r == Err::<(ServiceOrder, String), WorkflowError>(
            WorkflowError::PersistenceError,
        ),
        Ok(_) => r == Ok::<(ServiceOrder, String), WorkflowError>((order, transaction_id)),
    }
}

/// How the customer step answers: the message to send and the success
/// report, or the failure that ends the run — after the order is already
/// persisted as paid.
pub open spec fn customer_phase(
    order: ServiceOrder,
    transaction_id: String,
    customer: Result<Option<User>, PersistenceFault>,
    r: Result<(NotificationMessage, ProcessPaymentResult), WorkflowError>,
) -> bool {
    match customer {
        Err(_) => r == Err::<(NotificationMessage, ProcessPaymentResult), WorkflowError>(
            WorkflowError::PersistenceError,
        ),
        Ok(None) => r == Err::<(NotificationMessage, ProcessPaymentResult), WorkflowError>(
            WorkflowError::NotFound,
        ),
        Ok(Some(user)) => r matches Ok((message, report)) && message.recipient == user.phone
            && message.title@ == "Payment Successful"@ && message.body@ == payment_body(
            order.id.unwrap(),
            order.total_price,
        ) && report.order_id == order.id.unwrap() && report.transaction_id == transaction_id
            && report.status@ == "Success"@,
    }
}

/// Load step of the settlement: fail on a repository fault, a missing
/// order, or an order that is already paid — the idempotency guard.
pub fn settle_on_order(found: Result<Option<ServiceOrder>, PersistenceFault>) -> (r: Result<
    ServiceOrder,
    WorkflowError,
>)
    ensures
        order_phase(found, r),
{
    match found {
        Err(_) => Err(WorkflowError::PersistenceError),
        Ok(None) => Err(WorkflowError::NotFound),
        Ok(Some(order)) => {
            if order.status == OrderStatus::Paid {
                Err(WorkflowError::AlreadyPaid)
            } else {
                Ok(order)
            }
        },
    }
}

/// The charge the gateway is asked for: the order's full price in the
/// fixed settlement currency.
pub fn charge_request_for(order: &ServiceOrder, token: String) -> (r: ChargeRequest)
    ensures
        r.amount == order.total_price,
        r.currency@ == "THB"@,
        r.token == token,
{
    ChargeRequest { amount: order.total_price, currency: String::from_str("THB"), token }
}

/// Charge step: fail on a transport fault or a non-successful charge,
/// leaving the order untouched; on success, produce the paid order to
/// persist and the provider's transaction id.
pub fn settle_on_charge(order: ServiceOrder, outcome: Result<PaymentResult, GatewayFault>) -> (r:
    Result<(ServiceOrder, String), WorkflowError>)
    ensures
        charge_phase(order, outcome, r),
{
    match outcome {
        Err(_) => Err(WorkflowError::PaymentGatewayError),
        Ok(payment) => {
            if payment.status != PaymentStatus::Successful {
                Err(WorkflowError::PaymentFailed)
            } else {
                let mut paid = order;
                paid.status = OrderStatus::Paid;
                Ok((paid, payment.transaction_id))
            }
        },
    }
}

/// Persist step: the charge has already succeeded, so a repository fault
/// here is reported, not rolled back.
pub fn settle_on_persist(
    order: ServiceOrder,
    transaction_id: String,
    persisted: Result<ServiceOrder, PersistenceFault>,
) -> (r: Result<(ServiceOrder, String), WorkflowError>)
    ensures
        persist_phase(order, transaction_id, persisted, r),
{
    match persisted {
        Err(_) => Err(WorkflowError::PersistenceError),
        Ok(_) => Ok((order, transaction_id)),
    }
}

/// Customer step: build the success report and the message to send. The
/// order is already persisted as paid, so a missing customer fails the
/// run without undoing the payment.
pub fn settle_on_customer(
    order: ServiceOrder,
    transaction_id: String,
    customer: Result<Option<User>, PersistenceFault>,
) -> (r: Result<(NotificationMessage, ProcessPaymentResult), WorkflowError>)
    requires
        order.id is Some,
    ensures
        customer_phase(order, transaction_id, customer, r),
{
    match customer {
        Err(_) => Err(WorkflowError::PersistenceError),
        Ok(None) => Err(WorkflowError::NotFound),
        Ok(Some(user)) => {
            let order_id = match order.id {
                Some(i) => i,
                None => 0,  // unreachable: the order came from the repository
            };
            let mut body = String::from_str("Payment for order #");
            let id_text = i32_to_decimal(order_id);
            body.append(id_text.as_str());
            body.append(" successful. Total: ");
            let total_text = u64_to_decimal(order.total_price);
            body.append(total_text.as_str());
            let message = NotificationMessage {
                recipient: user.phone,
                title: String::from_str("Payment Successful"),
                body,
            };
            let report = ProcessPaymentResult {
                order_id,
                transaction_id,
                status: String::from_str("Success"),
            };
            Ok((message, report))
        },
    }
}

/// Final step: the notification outcome is swallowed; the report is
/// returned unchanged whether or not the message could be delivered.
pub fn settle_finish(report: ProcessPaymentResult, notify: Result<(), NotifyFault>) -> (r:
    ProcessPaymentResult)
    ensures
        r == report,
{
    let _ = notify;
    report
}

/// The whole settlement run over a given environment: which calls go
/// out, with which arguments, and what comes back.
pub open spec fn settle_rel(
    command: ProcessPaymentCommand,
    env: SettlementEnv,
    t: SettlementTrace,
) -> bool {
    match env.found {
        Err(_) => t.charge_call is None && t.update_call is None && t.notify_call is None
            && t.result == Err::<ProcessPaymentResult, WorkflowError>(
            WorkflowError::PersistenceError,
        ),
        Ok(None) => t.charge_call is None && t.update_call is None && t.notify_call is None
            && t.result == Err::<ProcessPaymentResult, WorkflowError>(WorkflowError::NotFound),
        Ok(Some(order)) => if order.status == OrderStatus::Paid {
            t.charge_call is None && t.update_call is None && t.notify_call is None && t.result
                == Err::<ProcessPaymentResult, WorkflowError>(WorkflowError::AlreadyPaid)
        } else {
            (t.charge_call matches Some(c) && c.amount == order.total_price && c.currency@
                == "THB"@ && c.token == command.payment_token) && settle_rel_after_charge(
                order,
                env,
                t,
            )
        },
    }
}

/// The run from the charge outcome on.
pub open spec fn settle_rel_after_charge(
    order: ServiceOrder,
    env: SettlementEnv,
    t: SettlementTrace,
) -> bool {
    match env.charge {
        Err(_) => t.update_call is None && t.notify_call is None && t.result == Err::<
            ProcessPaymentResult,
            WorkflowError,
        >(WorkflowError::PaymentGatewayError),
        Ok(payment) => if payment.status != PaymentStatus::Successful {
            t.update_call is None && t.notify_call is None && t.result == Err::<
                ProcessPaymentResult,
                WorkflowError,
            >(WorkflowError::PaymentFailed)
        } else {
            t.update_call == Some(order.with_status(OrderStatus::Paid))
                && settle_rel_after_update(order, payment, env, t)
        },
    }
}

/// The run from the persist outcome on.
pub open spec fn settle_rel_after_update(
    order: ServiceOrder,
    payment: PaymentResult,
    env: SettlementEnv,
    t: SettlementTrace,
) -> bool {
    match env.update {
        Err(_) => t.notify_call is None && t.result == Err::<ProcessPaymentResult, WorkflowError>(
            WorkflowError::PersistenceError,
        ),
        Ok(_) => match env.customer {
            Err(_) => t.notify_call is None && t.result == Err::<
                ProcessPaymentResult,
                WorkflowError,
            >(WorkflowError::PersistenceError),
            Ok(None) => t.notify_call is None && t.result == Err::<
                ProcessPaymentResult,
                WorkflowError,
            >(WorkflowError::NotFound),
            Ok(Some(user)) => (t.notify_call matches Some(message) && message.recipient
                == user.phone && message.title@ == "Payment Successful"@ && message.body@
                == payment_body(order.id.unwrap(), order.total_price)) && (t.result matches Ok(
                report,
            ) && report.order_id == order.id.unwrap() && report.transaction_id
                == payment.transaction_id && report.status@ == "Success"@),
        },
    }
}

/// One settlement run, with every outside answer supplied up front.
///
/// The driver that owns the real collaborators performs the same steps
/// through the phase functions above, consulting each answer only when
/// the run calls for it; this composition fixes what any such run does.
pub fn settle(command: ProcessPaymentCommand, env: SettlementEnv) -> (t: SettlementTrace)
    requires
        env.found matches Ok(found) && found matches Some(order) ==> order.id is Some,
    ensures
        settle_rel(command, env, t),
{
    let order = match settle_on_order(env.found) {
        Ok(order) => order,
        Err(e) => {
            return SettlementTrace {
                charge_call: None,
                update_call: None,
                notify_call: None,
                result: Err(e),
            };
        },
    };
    let charge_call = charge_request_for(&order, command.payment_token);
    let (paid_order, transaction_id) = match settle_on_charge(order, env.charge) {
        Ok(next) => next,
        Err(e) => {
            return SettlementTrace {
                charge_call: Some(charge_call),
                update_call: None,
                notify_call: None,
                result: Err(e),
            };
        },
    };
    let (confirmed, transaction_id) = match settle_on_persist(
        paid_order,
        transaction_id,
        env.update,
    ) {
        Ok(next) => next,
        Err(e) => {
            return SettlementTrace {
                charge_call: Some(charge_call),
                update_call: Some(paid_order),
                notify_call: None,
                result: Err(e),
            };
        },
    };
    let (message, report) = match settle_on_customer(confirmed, transaction_id, env.customer) {
        Ok(next) => next,
        Err(e) => {
            return SettlementTrace {
                charge_call: Some(charge_call),
                update_call: Some(paid_order),
                notify_call: None,
                result: Err(e),
            };
        },
    };
    let report = settle_finish(report, env.notify);
    SettlementTrace {
        charge_call: Some(charge_call),
        update_call: Some(paid_order),
        notify_call: Some(message),
        result: Ok(report),
    }
}

/// Settling an already-paid order never invokes the gateway and fails
/// with `AlreadyPaid`: at most one successful charge per order.
pub proof fn lemma_already_paid_never_charges(
    command: ProcessPaymentCommand,
    env: SettlementEnv,
    t: SettlementTrace,
    order: ServiceOrder,
)
    requires
        settle_rel(command, env, t),
        env.found == Ok::<Option<ServiceOrder>, PersistenceFault>(Some(order)),
        order.status == OrderStatus::Paid,
    ensures
        t.charge_call is None,
        t.result == Err::<ProcessPaymentResult, WorkflowError>(WorkflowError::AlreadyPaid),
{
}

/// A gateway answer of `Failed` or `Pending` never issues a status
/// update: the persisted order is left unchanged.
pub proof fn lemma_non_success_never_persists(
    command: ProcessPaymentCommand,
    env: SettlementEnv,
    t: SettlementTrace,
    payment: PaymentResult,
)
    requires
        settle_rel(command, env, t),
        env.charge == Ok::<PaymentResult, GatewayFault>(payment),
        payment.status != PaymentStatus::Successful,
    ensures
        t.update_call is None,
{
}

/// A successful charge issues exactly one status update, which sets the
/// order to `Paid` and changes nothing else; a successful run reports
/// the gateway's transaction id.
pub proof fn lemma_success_persists_paid(
    command: ProcessPaymentCommand,
    env: SettlementEnv,
    t: SettlementTrace,
    order: ServiceOrder,
    payment: PaymentResult,
)
    requires
        settle_rel(command, env, t),
        env.found == Ok::<Option<ServiceOrder>, PersistenceFault>(Some(order)),
        order.status != OrderStatus::Paid,
        env.charge == Ok::<PaymentResult, GatewayFault>(payment),
        payment.status == PaymentStatus::Successful,
    ensures
        t.update_call == Some(order.with_status(OrderStatus::Paid)),
        t.result matches Ok(report) ==> report.transaction_id == payment.transaction_id,
{
}

/// Two settlement outcomes that agree in everything the caller can read.
pub open spec fn report_equiv(
    a: Result<ProcessPaymentResult, WorkflowError>,
    b: Result<ProcessPaymentResult, WorkflowError>,
) -> bool {
    match (a, b) {
        (Ok(ra), Ok(rb)) => ra.order_id == rb.order_id && ra.transaction_id == rb.transaction_id
            && ra.status@ == rb.status@,
        (Err(ea), Err(eb)) => ea == eb,
        _ => false,
    }
}

/// The notification outcome never changes what the settlement reports:
/// two runs over environments that differ only in the notification
/// answer report the same outcome.
pub proof fn lemma_notification_outcome_is_swallowed(
    command: ProcessPaymentCommand,
    env1: SettlementEnv,
    env2: SettlementEnv,
    t1: SettlementTrace,
    t2: SettlementTrace,
)
    requires
        settle_rel(command, env1, t1),
        settle_rel(command, env2, t2),
        env2 == (SettlementEnv { notify: env2.notify, ..env1 }),
    ensures
        report_equiv(t1.result, t2.result),
{
}

} // verus!
