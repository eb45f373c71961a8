use vstd::prelude::*;

use crate::errors::WorkflowError;

verus! {

/// The lifecycle status of a service order.
///
/// `Booked → Repairing → Completed` is the guarded repair chain;
/// `Cancelled` is reachable from every status but `Completed`; `Paid` is
/// set by the payment settlement workflow and is not part of the chain.
#[derive(Clone, Copy, Debug, PartialEq, Eq, Structural)]
pub enum OrderStatus {
    Booked,
    Repairing,
    Completed,
    Cancelled,
    Paid,
}

/// A repair order for one bike, the aggregate this library is about.
///
/// `id` is `None` until the repository has persisted the order and
/// assigned an identifier. `total_price` is a non-negative amount of
/// money in minor currency units.
#[derive(Clone, Copy, Debug, PartialEq, Eq, Structural)]
pub struct ServiceOrder {
    pub id: Option<i32>,
    pub bike_id: i32,
    pub customer_id: i32,
    pub status: OrderStatus,
    pub total_price: u64,
}

impl ServiceOrder {
    /// The same order with `status` replaced and every other field kept.
    pub open spec fn with_status(self, status: OrderStatus) -> ServiceOrder {
        ServiceOrder { status, ..self }
    }

    /// A fresh, not yet persisted order in `Booked` status with price 0.
    pub fn new_booking(bike_id: i32, customer_id: i32) -> (order: ServiceOrder)
        ensures
            order == (ServiceOrder {
                id: None,
                bike_id,
                customer_id,
                status: OrderStatus::Booked,
                total_price: 0u64,
            }),
    {
        ServiceOrder {
            id: None,
            bike_id,
            customer_id,
            status: OrderStatus::Booked,
            total_price: 0,
        }
    }

    /// Guarded transition into `Repairing`: succeeds exactly from `Booked`.
    pub fn start_repair(&mut self) -> (r: Result<(), WorkflowError>)
        ensures
            r is Ok <==> old(self).status == OrderStatus::Booked,
            r is Ok ==> *final(self) == old(self).with_status(OrderStatus::Repairing),
            r is Err ==> *final(self) == *old(self) && r == Err::<(), WorkflowError>(
                WorkflowError::InvalidTransition,
            ),
    {
        if self.status != OrderStatus::Booked {
            return Err(WorkflowError::InvalidTransition);
        }
        self.status = OrderStatus::Repairing;
        Ok(())
    }

    /// Guarded transition into `Completed`: succeeds exactly from `Repairing`.
    pub fn complete_repair(&mut self) -> (r: Result<(), WorkflowError>)
        ensures
            r is Ok <==> old(self).status == OrderStatus::Repairing,
            r is Ok ==> *final(self) == old(self).with_status(OrderStatus::Completed),
            r is Err ==> *final(self) == *old(self) && r == Err::<(), WorkflowError>(
                WorkflowError::InvalidTransition,
            ),
    {
        if self.status != OrderStatus::Repairing {
            return Err(WorkflowError::InvalidTransition);
        }
        self.status = OrderStatus::Completed;
        Ok(())
    }

    /// Guarded transition into `Cancelled`: fails exactly from `Completed`.
    pub fn cancel(&mut self) -> (r: Result<(), WorkflowError>)
        ensures
            r is Ok <==> old(self).status != OrderStatus::Completed,
            r is Ok ==> *final(self) == old(self).with_status(OrderStatus::Cancelled),
            r is Err ==> *final(self) == *old(self) && r == Err::<(), WorkflowError>(
                WorkflowError::InvalidTransition,
            ),
    {
        if self.status == OrderStatus::Completed {
            return Err(WorkflowError::InvalidTransition);
        }
        self.status = OrderStatus::Cancelled;
        Ok(())
    }
}

} // verus!
