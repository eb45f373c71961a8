//! The order-lifecycle and payment-settlement core of a vehicle repair
//! shop's service backend.
//!
//! The library holds the verified logic: the service-order state
//! machine, the payment-settlement workflow with its failure semantics,
//! and the command handlers for order creation, status updates, account
//! registration, login and promotion. The repositories and the payment
//! and notification providers are outside collaborators; every workflow
//! here consumes their answers as values, so each decision is a total,
//! verified function, and a driver that owns the real collaborators
//! performs one outside call per step, exactly when a phase function
//! asks for it.

mod accounts;
mod auth;
mod decimal;
mod errors;
mod notification;
mod order;
mod orders;
mod payment;
mod settlement;
mod user;
mod values;

pub use accounts::LoginCommand;
pub use accounts::LoginResult;
pub use accounts::PromoteUserCommand;
pub use accounts::PromoteUserResult;
pub use accounts::RegisterUserCommand;
pub use accounts::RegisterUserResult;
pub use accounts::UserResponse;
pub use accounts::apply_promotion;
pub use accounts::hash_password;
pub use accounts::login_check;
pub use accounts::login_result;
pub use accounts::password_matches;
pub use accounts::phc_valid;
pub use accounts::prepare_registration;
pub use accounts::promote_on_persisted;
pub use accounts::register_on_persisted;
pub use accounts::user_response_for;
pub use accounts::user_response_of;
pub use accounts::user_responses;
pub use accounts::verify_password;
pub use auth::AuthUser;
pub use auth::Claims;
pub use auth::auth_user_from_claims;
pub use auth::bearer_token;
pub use decimal::dec_seq;
pub use decimal::digit_char;
pub use decimal::i32_to_decimal;
pub use decimal::int_dec_seq;
pub use decimal::u64_to_decimal;
pub use errors::AccountError;
pub use errors::GatewayFault;
pub use errors::NotifyFault;
pub use errors::PersistenceFault;
pub use errors::ValidationError;
pub use errors::WorkflowError;
pub use notification::NotificationGateway;
pub use notification::NotificationMessage;
pub use order::OrderStatus;
pub use order::ServiceOrder;
pub use orders::CreateServiceOrderCommand;
pub use orders::CreateServiceOrderResult;
pub use orders::ServiceOrderResponse;
pub use orders::UpdateOrderStatusCommand;
pub use orders::apply_status_update;
pub use orders::create_on_persisted;
pub use orders::order_from_command;
pub use orders::order_response_for;
pub use orders::order_response_of;
pub use orders::order_responses;
pub use orders::status_updated_order;
pub use orders::update_on_order;
pub use orders::update_on_persisted;
pub use payment::PaymentGateway;
pub use payment::PaymentResult;
pub use payment::PaymentStatus;
pub use payment::payment_status_from_str;
pub use payment::spec_payment_status;
pub use settlement::ChargeRequest;
pub use settlement::ProcessPaymentCommand;
pub use settlement::ProcessPaymentResult;
pub use settlement::SettlementEnv;
pub use settlement::SettlementTrace;
pub use settlement::charge_phase;
pub use settlement::charge_request_for;
pub use settlement::customer_phase;
pub use settlement::lemma_already_paid_never_charges;
pub use settlement::lemma_non_success_never_persists;
pub use settlement::lemma_notification_outcome_is_swallowed;
pub use settlement::lemma_success_persists_paid;
pub use settlement::order_phase;
pub use settlement::payment_body;
pub use settlement::persist_phase;
pub use settlement::report_equiv;
pub use settlement::settle;
pub use settlement::settle_finish;
pub use settlement::settle_on_charge;
pub use settlement::settle_on_customer;
pub use settlement::settle_on_order;
pub use settlement::settle_on_persist;
pub use settlement::settle_rel;
pub use settlement::settle_rel_after_charge;
pub use settlement::settle_rel_after_update;
pub use user::Role;
pub use user::User;
pub use values::LicensePlate;
pub use values::PasswordHash;
pub use values::Price;
