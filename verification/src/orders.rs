use vstd::prelude::*;

use crate::errors::PersistenceFault;
use crate::errors::WorkflowError;
use crate::order::OrderStatus;
use crate::order::ServiceOrder;

verus! {

/// The inbound request to book a new service order.
#[derive(Clone, Copy, Debug, PartialEq, Eq, Structural)]
pub struct CreateServiceOrderCommand {
    pub bike_id: i32,
    pub customer_id: i32,
    pub initial_price: Option<u64>,
}

/// What a completed booking reports back to the caller.
#[derive(Clone, Copy, Debug, PartialEq, Eq, Structural)]
pub struct CreateServiceOrderResult {
    pub order_id: i32,
    pub status: OrderStatus,
    pub total_price: u64,
}

/// The inbound request to overwrite an order's status, with an optional
/// price correction.
#[derive(Clone, Copy, Debug, PartialEq, Eq, Structural)]
pub struct UpdateOrderStatusCommand {
    pub order_id: i32,
    pub status: OrderStatus,
    pub total_price: Option<u64>,
}

/// An order as listed to a caller, with 0 for a missing identifier.
#[derive(Clone, Copy, Debug, PartialEq, Eq, Structural)]
pub struct ServiceOrderResponse {
    pub id: i32,
    pub bike_id: i32,
    pub customer_id: i32,
    pub status: OrderStatus,
    pub total_price: u64,
}

/// The order a booking command asks for: `Booked`, priced at the
/// initial estimate or 0, not yet persisted.
pub fn order_from_command(command: &CreateServiceOrderCommand) -> (order: ServiceOrder)
    ensures
        order == (ServiceOrder {
            id: None::<i32>,
            bike_id: command.bike_id,
            customer_id: command.customer_id,
            status: OrderStatus::Booked,
            total_price: command.initial_price.unwrap_or(0),
        }),
{
    ServiceOrder {
        id: None,
        bike_id: command.bike_id,
        customer_id: command.customer_id,
        status: OrderStatus::Booked,
        total_price: command.initial_price.unwrap_or(0),
    }
}

/// What a booking reports once the repository has persisted the order
/// and assigned its identifier.
pub fn create_on_persisted(persisted: Result<ServiceOrder, PersistenceFault>) -> (r: Result<
    CreateServiceOrderResult,
    WorkflowError,
>)
    ensures
        persisted is Err ==> r == Err::<CreateServiceOrderResult, WorkflowError>(
            WorkflowError::PersistenceError,
        ),
        persisted matches Ok(order) ==> r == Ok::<CreateServiceOrderResult, WorkflowError>(
            CreateServiceOrderResult {
                order_id: order.id.unwrap_or(0),
                status: order.status,
                total_price: order.total_price,
            },
        ),
{
    match persisted {
        Err(_) => Err(WorkflowError::PersistenceError),
        Ok(order) => Ok(
            CreateServiceOrderResult {
                order_id: order.id.unwrap_or(0),
                status: order.status,
                total_price: order.total_price,
            },
        ),
    }
}

/// The administrative overwrite: the target status is set without any
/// transition guard, and the price only where the command carries one.
pub open spec fn status_updated_order(
    order: ServiceOrder,
    status: OrderStatus,
    total_price: Option<u64>,
) -> ServiceOrder {
    ServiceOrder { status, total_price: total_price.unwrap_or(order.total_price), ..order }
}

/// Applies the administrative overwrite to a loaded order.
pub fn apply_status_update(
    order: ServiceOrder,
    status: OrderStatus,
    total_price: Option<u64>,
) -> (r: ServiceOrder)
    ensures
        r == status_updated_order(order, status, total_price),
{
    ServiceOrder {
        id: order.id,
        bike_id: order.bike_id,
        customer_id: order.customer_id,
        status,
        total_price: total_price.unwrap_or(order.total_price),
    }
}

/// The status-update workflow, given the repository's answer for the
/// command's order: fail on a fault or a missing order, else produce
/// the overwritten order to persist.
pub fn update_on_order(
    found: Result<Option<ServiceOrder>, PersistenceFault>,
    command: &UpdateOrderStatusCommand,
) -> (r: Result<ServiceOrder, WorkflowError>)
    ensures
        found is Err ==> r == Err::<ServiceOrder, WorkflowError>(WorkflowError::PersistenceError),
        found == Ok::<Option<ServiceOrder>, PersistenceFault>(None) ==> r == Err::<
            ServiceOrder,
            WorkflowError,
        >(WorkflowError::NotFound),
        found matches Ok(Some(order)) ==> r == Ok::<ServiceOrder, WorkflowError>(
            status_updated_order(order, command.status, command.total_price),
        ),
{
    match found {
        Err(_) => Err(WorkflowError::PersistenceError),
        Ok(None) => Err(WorkflowError::NotFound),
        Ok(Some(order)) => Ok(apply_status_update(order, command.status, command.total_price)),
    }
}

/// What the status update reports: the order as the repository returned
/// it after the write.
pub fn update_on_persisted(persisted: Result<ServiceOrder, PersistenceFault>) -> (r: Result<
    ServiceOrder,
    WorkflowError,
>)
    ensures
        persisted is Err ==> r == Err::<ServiceOrder, WorkflowError>(
            WorkflowError::PersistenceError,
        ),
        persisted matches Ok(order) ==> r == Ok::<ServiceOrder, WorkflowError>(order),
{
    match persisted {
        Err(_) => Err(WorkflowError::PersistenceError),
        Ok(order) => Ok(order),
    }
}

/// The listing view of one order, with 0 for a missing identifier.
pub open spec fn order_response_of(order: ServiceOrder) -> ServiceOrderResponse {
    ServiceOrderResponse {
        id: order.id.unwrap_or(0),
        bike_id: order.bike_id,
        customer_id: order.customer_id,
        status: order.status,
        total_price: order.total_price,
    }
}

/// The listing view of one order.
pub fn order_response_for(order: &ServiceOrder) -> (r: ServiceOrderResponse)
    ensures
        r == order_response_of(*order),
{
    ServiceOrderResponse {
        id: order.id.unwrap_or(0),
        bike_id: order.bike_id,
        customer_id: order.customer_id,
        status: order.status,
        total_price: order.total_price,
    }
}

/// The listing view of every order, in the repository's order.
pub fn order_responses(orders: &Vec<ServiceOrder>) -> (r: Vec<ServiceOrderResponse>)
    ensures
        r@.len() == orders@.len(),
        forall|i: int| 0 <= i < orders@.len() ==> r@[i] == order_response_of(orders@[i]),
{
    let mut r: Vec<ServiceOrderResponse> = Vec::new();
    let mut i: usize = 0;
    while i < orders.len()
        invariant
            i <= orders@.len(),
            r@.len() == i,
            forall|j: int| 0 <= j < i ==> r@[j] == order_response_of(orders@[j]),
        decreases orders@.len() - i,
    {
        let response = order_response_for(&orders[i]);
        r.push(response);
        i += 1;
    }
    r
}

} // verus!
