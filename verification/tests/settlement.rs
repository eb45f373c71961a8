use backend::{
    GatewayFault, NotifyFault, OrderStatus, PaymentResult, PaymentStatus, PersistenceFault,
    ProcessPaymentCommand, ServiceOrder, SettlementEnv, User, Role, WorkflowError, settle,
};

fn order(id: i32, status: OrderStatus, total_price: u64) -> ServiceOrder {
    ServiceOrder {
        id: Some(id),
        bike_id: 10,
        customer_id: 20,
        status,
        total_price,
    }
}

fn customer() -> User {
    User {
        id: Some(20),
        username: String::from("somsak"),
        password_hash: String::from("irrelevant"),
        name: String::from("Somsak"),
        phone: String::from("0812345678"),
        role: Role::Customer,
    }
}

fn successful_payment(transaction_id: &str, amount: u64) -> PaymentResult {
    PaymentResult {
        transaction_id: String::from(transaction_id),
        amount,
        currency: String::from("THB"),
        status: PaymentStatus::Successful,
    }
}

fn command(order_id: i32) -> ProcessPaymentCommand {
    ProcessPaymentCommand {
        order_id,
        payment_token: String::from("tok_test"),
    }
}

fn env_for(
    found: Result<Option<ServiceOrder>, PersistenceFault>,
    charge: Result<PaymentResult, GatewayFault>,
) -> SettlementEnv {
    SettlementEnv {
        found,
        charge,
        update: Ok(order(1, OrderStatus::Paid, 500)),
        customer: Ok(Some(customer())),
        notify: Ok(()),
    }
}

#[test]
fn successful_settlement_marks_order_paid() {
    let booked = order(1, OrderStatus::Booked, 500);
    let env = env_for(Ok(Some(booked)), Ok(successful_payment("tx1", 500)));
    let trace = settle(command(1), env);

    let report = trace.result.expect("settlement should succeed");
    assert_eq!(report.order_id, 1);
    assert_eq!(report.transaction_id, "tx1");
    assert_eq!(report.status, "Success");

    let charge = trace.charge_call.expect("the gateway should be charged");
    assert_eq!(charge.amount, 500);
    assert_eq!(charge.currency, "THB");
    assert_eq!(charge.token, "tok_test");

    let written = trace.update_call.expect("the order should be written back");
    assert_eq!(written.status, OrderStatus::Paid);
    assert_eq!(written.total_price, 500);
    assert_eq!(written.id, Some(1));
}

#[test]
fn already_paid_order_is_never_charged_again() {
    let paid = order(2, OrderStatus::Paid, 500);
    let env = env_for(Ok(Some(paid)), Ok(successful_payment("tx2", 500)));
    let trace = settle(command(2), env);

    assert_eq!(trace.result, Err(WorkflowError::AlreadyPaid));
    assert!(trace.charge_call.is_none());
    assert!(trace.update_call.is_none());
    assert!(trace.notify_call.is_none());
}

#[test]
fn failed_charge_leaves_order_unchanged() {
    let booked = order(3, OrderStatus::Booked, 100);
    let failed = PaymentResult {
        transaction_id: String::from("tx3"),
        amount: 100,
        currency: String::from("THB"),
        status: PaymentStatus::Failed,
    };
    let env = env_for(Ok(Some(booked)), Ok(failed));
    let trace = settle(command(3), env);

    assert_eq!(trace.result, Err(WorkflowError::PaymentFailed));
    assert!(trace.charge_call.is_some());
    assert!(trace.update_call.is_none());
    assert!(trace.notify_call.is_none());
}

#[test]
fn pending_charge_leaves_order_unchanged() {
    let booked = order(3, OrderStatus::Booked, 100);
    let pending = PaymentResult {
        transaction_id: String::from("tx4"),
        amount: 100,
        currency: String::from("THB"),
        status: PaymentStatus::Pending,
    };
    let env = env_for(Ok(Some(booked)), Ok(pending));
    let trace = settle(command(3), env);

    assert_eq!(trace.result, Err(WorkflowError::PaymentFailed));
    assert!(trace.update_call.is_none());
}

#[test]
fn notification_failure_still_reports_success() {
    let booked = order(1, OrderStatus::Booked, 500);
    let mut env = env_for(Ok(Some(booked)), Ok(successful_payment("tx1", 500)));
    env.notify = Err(NotifyFault);
    let trace = settle(command(1), env);

    let report = trace.result.expect("settlement should still succeed");
    assert_eq!(report.order_id, 1);
    assert_eq!(report.transaction_id, "tx1");
    assert_eq!(report.status, "Success");
    assert!(trace.notify_call.is_some());
}

#[test]
fn notification_names_order_and_amount() {
    let booked = order(1, OrderStatus::Booked, 500);
    let env = env_for(Ok(Some(booked)), Ok(successful_payment("tx1", 500)));
    let trace = settle(command(1), env);

    let message = trace.notify_call.expect("a message should be prepared");
    assert_eq!(message.recipient, "0812345678");
    assert_eq!(message.title, "Payment Successful");
    assert_eq!(message.body, "Payment for order #1 successful. Total: 500");
}

#[test]
fn missing_order_reports_not_found() {
    let env = env_for(Ok(None), Ok(successful_payment("tx5", 500)));
    let trace = settle(command(5), env);

    assert_eq!(trace.result, Err(WorkflowError::NotFound));
    assert!(trace.charge_call.is_none());
    assert!(trace.update_call.is_none());
}

#[test]
fn repository_fault_on_load_reports_persistence_error() {
    let env = env_for(Err(PersistenceFault), Ok(successful_payment("tx6", 500)));
    let trace = settle(command(6), env);

    assert_eq!(trace.result, Err(WorkflowError::PersistenceError));
    assert!(trace.charge_call.is_none());
}

#[test]
fn gateway_transport_fault_reports_gateway_error() {
    let booked = order(7, OrderStatus::Booked, 250);
    let env = env_for(Ok(Some(booked)), Err(GatewayFault));
    let trace = settle(command(7), env);

    assert_eq!(trace.result, Err(WorkflowError::PaymentGatewayError));
    assert!(trace.charge_call.is_some());
    assert!(trace.update_call.is_none());
}

#[test]
fn persist_fault_after_charge_reports_persistence_error() {
    let booked = order(8, OrderStatus::Booked, 300);
    let mut env = env_for(Ok(Some(booked)), Ok(successful_payment("tx8", 300)));
    env.update = Err(PersistenceFault);
    let trace = settle(command(8), env);

    assert_eq!(trace.result, Err(WorkflowError::PersistenceError));
    let written = trace.update_call.expect("the write should still be issued");
    assert_eq!(written.status, OrderStatus::Paid);
    assert!(trace.notify_call.is_none());
}

#[test]
fn missing_customer_after_charge_reports_not_found() {
    let booked = order(9, OrderStatus::Booked, 300);
    let mut env = env_for(Ok(Some(booked)), Ok(successful_payment("tx9", 300)));
    env.customer = Ok(None);
    let trace = settle(command(9), env);

    assert_eq!(trace.result, Err(WorkflowError::NotFound));
    let written = trace.update_call.expect("the order stays paid");
    assert_eq!(written.status, OrderStatus::Paid);
    assert!(trace.notify_call.is_none());
}
