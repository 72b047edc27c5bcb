//! The inventory ledger: the medicine catalog and the purchase operation
//! that couples a stock decrement to an outbound value transfer.
//!
//! A purchase reserves stock and records a `Pending` order; the host
//! performs the transfer after the purchase commits and later reports the
//! outcome through `on_transfer_result`, which settles the order or
//! restores the reserved stock.

use vstd::prelude::*;
use vstd::pervasive::VecAdditionalExecFns;
use vstd::arithmetic::div_mod::{
    lemma_div_is_ordered, lemma_div_multiples_vanish, lemma_div_pos_is_pos,
};
use vstd::arithmetic::mul::{lemma_mul_inequality, lemma_mul_nonnegative, lemma_mul_upper_bound};

use crate::entities::{Medicine, Order, OrderStatus};
use crate::errors::LedgerError;
use crate::ledger::{has_medicine, medicine_index, pending_total, Contract, MAX_PRICE, MAX_STOCK};
use crate::tally::{
    lemma_sum_by_element_bound, lemma_sum_by_nonneg, lemma_sum_by_push, lemma_sum_by_update,
    lemma_sum_by_zero,
};

verus! {

/// The unit price of `m` after its discount, truncating toward zero.
pub open spec fn unit_price(m: Medicine) -> int {
    m.price * (100 - m.discount) / 100
}

/// The total owed for `q` units of `m`: the discounted unit price times
/// the quantity.
pub open spec fn purchase_total(m: Medicine, q: u128) -> int {
    unit_price(m) * q
}

/// Price arithmetic stays in range: the discounted unit price lies between
/// zero and the raw price, and a total over in-range quantities fits well
/// inside `u128`.
pub proof fn lemma_price_bounds(m: Medicine, q: u128)
    requires
        m.discount <= 100,
        m.price <= MAX_PRICE,
        q <= MAX_STOCK,
    ensures
        0 <= unit_price(m) <= m.price,
        m.price * (100 - m.discount) <= MAX_PRICE * 100,
        0 <= purchase_total(m, q) <= MAX_PRICE * MAX_STOCK,
{
    let p = m.price as int;
    let d = m.discount as int;
    lemma_mul_nonnegative(p, 100 - d);
    lemma_div_pos_is_pos(p * (100 - d), 100);
    lemma_mul_inequality(100 - d, 100, p);
    lemma_div_is_ordered(p * (100 - d), p * 100, 100);
    lemma_div_multiples_vanish(p, 100);
    lemma_mul_inequality(p, MAX_PRICE as int, 100);
    lemma_mul_nonnegative(unit_price(m), q as int);
    lemma_mul_upper_bound(unit_price(m), MAX_PRICE as int, q as int, MAX_STOCK as int);
}

impl Contract {
    /// The catalog position of the medicine with id `medicine_id`, found
    /// through the id index rather than a scan.
    pub(crate) fn find_drug(&self, medicine_id: u32) -> (r: Option<usize>)
        requires
            self.wf(),
        ensures
            (match r {
                Some(pos) => (pos as int) == medicine_index(self.drugs@, medicine_id)
                    && (pos as int) < self.drugs@.len() && self.drugs@[pos as int].id
                    == medicine_id && has_medicine(self.drugs@, medicine_id),
                None => !has_medicine(self.drugs@, medicine_id),
            }),
    {
        broadcast use vstd::std_specs::hash::group_hash_axioms;

        match self.drug_index.get(&medicine_id) {
            Some(pos_ref) => {
                let pos: usize = *pos_ref;
                proof {
                    assert(self.drugs@[pos as int].id == medicine_id);
                    let ci = medicine_index(self.drugs@, medicine_id);
                    assert(0 <= ci < self.drugs@.len() && self.drugs@[ci].id == medicine_id);
                    if ci != pos as int {
                        if ci < pos as int {
                            assert(self.drugs@[ci].id != self.drugs@[pos as int].id);
                        } else {
                            assert(self.drugs@[pos as int].id != self.drugs@[ci].id);
                        }
                    }
                }
                Some(pos)
            },
            None => {
                proof {
                    if has_medicine(self.drugs@, medicine_id) {
                        let i = choose|i: int|
                            0 <= i < self.drugs@.len() && self.drugs@[i].id == medicine_id;
                        assert(self.drug_index@.contains_key(self.drugs@[i].id));
                    }
                }
                None
            },
        }
    }

    /// Adds a medicine to the catalog under a caller-supplied id.  Admin
    /// only; the discount must stay within 0 to 100, price and quantity
    /// within the ledger's range, and the id must be fresh.  Availability
    /// starts as whether any stock was supplied.
    pub fn add_medicine(
        &mut self,
        actor: &String,
        id: u32,
        doctor_id: u32,
        name: String,
        brand: String,
        manufacturer: String,
        manufacturing_date: String,
        expiry_date: String,
        company_email: String,
        discount: u128,
        manufacturer_address: String,
        price: u128,
        quantity: u128,
        current_location: String,
        phone_no: u64,
        image: String,
        description: String,
    ) -> (r: Result<(), LedgerError>)
        requires
            old(self).wf(),
        ensures
            final(self).wf(),
            r is Ok <==> old(self).spec_is_admin(*actor) && discount <= 100 && price <= MAX_PRICE
                && quantity <= MAX_STOCK && !has_medicine(old(self).drugs@, id),
            !old(self).spec_is_admin(*actor) ==> r == Result::<(), LedgerError>::Err(
                LedgerError::Authorization,
            ),
            old(self).spec_is_admin(*actor) && (discount > 100 || price > MAX_PRICE || quantity
                > MAX_STOCK) ==> r == Result::<(), LedgerError>::Err(LedgerError::InvalidArgument),
            old(self).spec_is_admin(*actor) && discount <= 100 && price <= MAX_PRICE && quantity
                <= MAX_STOCK && has_medicine(old(self).drugs@, id) ==> r == Result::<
                (),
                LedgerError,
            >::Err(LedgerError::DuplicateId),
            r is Err ==> *final(self) == *old(self),
            r is Ok ==> final(self).drugs@ == old(self).drugs@.push(
                (Medicine {
                    id,
                    doctor_id,
                    name,
                    brand,
                    manufacturer,
                    manufacturing_date,
                    expiry_date,
                    company_email,
                    discount,
                    manufacturer_address,
                    price,
                    quantity,
                    current_location,
                    phone_no,
                    image,
                    description,
                    availability: quantity > 0,
                }),
            ) && *final(self) == (Contract {
                drugs: final(self).drugs,
                drug_index: final(self).drug_index,
                ..*old(self)
            }),
    {
        broadcast use vstd::std_specs::hash::group_hash_axioms;

        if !self.is_admin(actor) {
            return Err(LedgerError::Authorization);
        }
        if discount > 100 || price > MAX_PRICE || quantity > MAX_STOCK {
            return Err(LedgerError::InvalidArgument);
        }
        if self.find_drug(id).is_some() {
            return Err(LedgerError::DuplicateId);
        }
        let pos: usize = self.drugs.len();
        let medicine = Medicine {
            id,
            doctor_id,
            name,
            brand,
            manufacturer,
            manufacturing_date,
            expiry_date,
            company_email,
            discount,
            manufacturer_address,
            price,
            quantity,
            current_location,
            phone_no,
            image,
            description,
            availability: quantity > 0,
        };
        self.drugs.push(medicine);
        self.drug_index.insert(id, pos);
        proof {
            let orders = self.orders@;
            let f = |o: Order| if o.medicine_id == id && o.status is Pending {
                o.quantity as int
            } else {
                0
            };
            assert forall|i: int| 0 <= i < orders.len() implies f(#[trigger] orders[i]) == 0 by {
                assert(has_medicine(old(self).drugs@, orders[i].medicine_id));
                assert(orders[i].medicine_id != id);
            }
            lemma_sum_by_zero(orders, f);
            assert forall|i: int| 0 <= i < self.orders@.len() implies has_medicine(
                self.drugs@,
                (#[trigger] self.orders@[i]).medicine_id,
            ) by {
                let j = choose|j: int|
                    0 <= j < old(self).drugs@.len() && old(self).drugs@[j].id == self.orders@[i].medicine_id;
                assert(self.drugs@[j].id == self.orders@[i].medicine_id);
            }
        }
        Ok(())
    }

    /// The medicine registered under `medicine_id`, if any.
    pub fn get_medicine_by_id(&self, medicine_id: u32) -> (r: Option<Medicine>)
        requires
            self.wf(),
        ensures
            (match r {
                Some(m) => has_medicine(self.drugs@, medicine_id) && m == self.drugs@[medicine_index(
                    self.drugs@,
                    medicine_id,
                )],
                None => !has_medicine(self.drugs@, medicine_id),
            }),
    {
        match self.find_drug(medicine_id) {
            Some(pos) => Some(self.drugs[pos].clone()),
            None => None,
        }
    }

    /// A snapshot of the whole catalog, in insertion order.
    pub fn get_all_registered_medicines(&self) -> (r: Vec<Medicine>)
        ensures
            r@ == self.drugs@,
    {
        let mut r: Vec<Medicine> = Vec::new();
        let mut i: usize = 0;
        while i < self.drugs.len()
            invariant
                i <= self.drugs.len(),
                r@ =~= self.drugs@.take(i as int),
            decreases self.drugs.len() - i,
        {
            r.push(self.drugs[i].clone());
            i = i + 1;
        }
        proof {
            assert(self.drugs@.take(self.drugs@.len() as int) =~= self.drugs@);
        }
        r
    }

    /// Purchases `quantity` units of a medicine for the patient registered
    /// under `patient_id`.  Registered users only.  On success the stock is
    /// decremented at once (a reservation), a `Pending` order carrying the
    /// discounted unit price and the exact total is recorded, and the host
    /// owes an outbound transfer of that total, whose outcome it later
    /// reports through `on_transfer_result`.  On any failure nothing
    /// changes.
    pub fn buy_medicine(
        &mut self,
        actor: &String,
        medicine_id: u32,
        quantity: u128,
        patient_id: u32,
        now: u64,
    ) -> (r: Result<Order, LedgerError>)
        requires
            old(self).wf(),
            old(self).orders@.len() < u32::MAX,
        ensures
            final(self).wf(),
            !old(self).spec_is_user(*actor) ==> r == Result::<Order, LedgerError>::Err(
                LedgerError::Authorization,
            ),
            old(self).spec_is_user(*actor) && !has_medicine(old(self).drugs@, medicine_id) ==> r
                == Result::<Order, LedgerError>::Err(LedgerError::NotFound),
            old(self).spec_is_user(*actor) && has_medicine(old(self).drugs@, medicine_id)
                && quantity == 0 ==> r == Result::<Order, LedgerError>::Err(
                LedgerError::InvalidArgument,
            ),
            old(self).spec_is_user(*actor) && has_medicine(old(self).drugs@, medicine_id)
                && quantity > 0 && quantity > old(self).drugs@[medicine_index(
                old(self).drugs@,
                medicine_id,
            )].quantity ==> r == Result::<Order, LedgerError>::Err(LedgerError::InsufficientStock),
            r is Err ==> *final(self) == *old(self),
            r is Ok <==> old(self).spec_is_user(*actor) && has_medicine(
                old(self).drugs@,
                medicine_id,
            ) && 0 < quantity <= old(self).drugs@[medicine_index(
                old(self).drugs@,
                medicine_id,
            )].quantity,
            r is Ok ==> ({
                let pos = medicine_index(old(self).drugs@, medicine_id);
                let m = old(self).drugs@[pos];
                let o = (Order {
                    id: old(self).orders@.len() as u32,
                    medicine_id,
                    price: unit_price(m) as u128,
                    payment_amount: purchase_total(m, quantity) as u128,
                    quantity,
                    patient_id,
                    date: now,
                    status: OrderStatus::Pending,
                });
                &&& r == Result::<Order, LedgerError>::Ok(o)
                &&& final(self).orders@ == old(self).orders@.push(o)
                &&& final(self).drugs@ == old(self).drugs@.update(
                    pos,
                    (Medicine {
                        quantity: (m.quantity - quantity) as u128,
                        availability: m.quantity > quantity,
                        ..m
                    }),
                )
                &&& *final(self) == (Contract {
                    drugs: final(self).drugs,
                    orders: final(self).orders,
                    ..*old(self)
                })
            }),
    {
        if !self.is_user(actor) {
            return Err(LedgerError::Authorization);
        }
        let pos: usize = match self.find_drug(medicine_id) {
            Some(p) => p,
            None => {
                return Err(LedgerError::NotFound);
            },
        };
        if quantity == 0 {
            return Err(LedgerError::InvalidArgument);
        }
        let m = self.drugs[pos].clone();
        if quantity > m.quantity {
            return Err(LedgerError::InsufficientStock);
        }
        proof {
            lemma_sum_by_nonneg(
                self.orders@,
                |o: Order| if o.medicine_id == m.id && o.status is Pending {
                    o.quantity as int
                } else {
                    0
                },
            );
            lemma_price_bounds(m, quantity);
        }
        let unit: u128 = m.price * (100 - m.discount) / 100;
        let total: u128 = unit * quantity;
        let oid: u32 = self.orders.len() as u32;
        let order = Order {
            id: oid,
            medicine_id,
            price: unit,
            payment_amount: total,
            quantity,
            patient_id,
            date: now,
            status: OrderStatus::Pending,
        };
        let updated = Medicine {
            quantity: m.quantity - quantity,
            availability: m.quantity - quantity > 0,
            ..m
        };
        self.drugs.set(pos, updated);
        self.orders.push(order);
        proof {
            let oldorders = old(self).orders@;
            let olddrugs = old(self).drugs@;
            assert forall|i: int| 0 <= i < self.drugs@.len() implies {
                let md = #[trigger] self.drugs@[i];
                md.quantity + pending_total(self.orders@, md.id) <= MAX_STOCK
            } by {
                let md = self.drugs@[i];
                lemma_sum_by_push(
                    oldorders,
                    |o: Order| if o.medicine_id == md.id && o.status is Pending {
                        o.quantity as int
                    } else {
                        0
                    },
                    order,
                );
                if i != pos as int {
                    assert(olddrugs[i].id != olddrugs[pos as int].id);
                }
            }
            assert forall|i: int| 0 <= i < self.orders@.len() implies has_medicine(
                self.drugs@,
                (#[trigger] self.orders@[i]).medicine_id,
            ) by {
                if i < oldorders.len() {
                    let j = choose|j: int|
                        0 <= j < olddrugs.len() && olddrugs[j].id == self.orders@[i].medicine_id;
                    assert(self.drugs@[j].id == self.orders@[i].medicine_id);
                } else {
                    assert(self.drugs@[pos as int].id == medicine_id);
                }
            }
        }
        Ok(order)
    }

    /// Records the outcome of the outbound transfer for the order
    /// registered under `order_id`.  The host invokes this once the
    /// transfer resolves.  Success settles the pending order; failure marks
    /// it failed and restores the reserved stock, which makes the medicine
    /// available again.  A second report on the same order finds it no
    /// longer pending and changes nothing.
    pub fn on_transfer_result(&mut self, order_id: u32, success: bool) -> (r: Result<
        (),
        LedgerError,
    >)
        requires
            old(self).wf(),
        ensures
            final(self).wf(),
            r is Ok <==> (order_id as int) < old(self).orders@.len() && old(
                self,
            ).orders@[order_id as int].status is Pending,
            (order_id as int) >= old(self).orders@.len() ==> r == Result::<(), LedgerError>::Err(
                LedgerError::NotFound,
            ),
            (order_id as int) < old(self).orders@.len() && !(old(
                self,
            ).orders@[order_id as int].status is Pending) ==> r == Result::<(), LedgerError>::Err(
                LedgerError::InvalidStateTransition,
            ),
            r is Err ==> *final(self) == *old(self),
            r is Ok && success ==> ({
                let o = old(self).orders@[order_id as int];
                &&& final(self).orders@ == old(self).orders@.update(
                    order_id as int,
                    (Order { status: OrderStatus::Settled, ..o }),
                )
                &&& *final(self) == (Contract { orders: final(self).orders, ..*old(self) })
            }),
            r is Ok && !success ==> ({
                let o = old(self).orders@[order_id as int];
                let pos = medicine_index(old(self).drugs@, o.medicine_id);
                let m = old(self).drugs@[pos];
                &&& final(self).orders@ == old(self).orders@.update(
                    order_id as int,
                    (Order { status: OrderStatus::Failed, ..o }),
                )
                &&& final(self).drugs@ == old(self).drugs@.update(
                    pos,
                    (Medicine {
                        quantity: (m.quantity + o.quantity) as u128,
                        availability: true,
                        ..m
                    }),
                )
                &&& *final(self) == (Contract {
                    drugs: final(self).drugs,
                    orders: final(self).orders,
                    ..*old(self)
                })
            }),
    {
        if (order_id as usize) >= self.orders.len() {
            return Err(LedgerError::NotFound);
        }
        let o = self.orders[order_id as usize];
        if !(o.status == OrderStatus::Pending) {
            return Err(LedgerError::InvalidStateTransition);
        }
        if success {
            self.orders.set(order_id as usize, Order { status: OrderStatus::Settled, ..o });
            proof {
                let oldorders = old(self).orders@;
                let newo = self.orders@[order_id as int];
                assert forall|i: int| 0 <= i < self.drugs@.len() implies {
                    let md = #[trigger] self.drugs@[i];
                    md.quantity + pending_total(self.orders@, md.id) <= MAX_STOCK
                } by {
                    let md = self.drugs@[i];
                    let f = |x: Order| if x.medicine_id == md.id && x.status is Pending {
                        x.quantity as int
                    } else {
                        0
                    };
                    lemma_sum_by_update(oldorders, f, order_id as int, newo);
                    lemma_sum_by_nonneg(oldorders, f);
                }
            }
            Ok(())
        } else {
            proof {
                assert(has_medicine(self.drugs@, o.medicine_id));
            }
            let pos: usize = match self.find_drug(o.medicine_id) {
                Some(p) => p,
                None => vstd::pervasive::unreached(),
            };
            let m = self.drugs[pos].clone();
            proof {
                lemma_sum_by_element_bound(
                    self.orders@,
                    |x: Order| if x.medicine_id == m.id && x.status is Pending {
                        x.quantity as int
                    } else {
                        0
                    },
                    order_id as int,
                );
            }
            let restored = Medicine {
                quantity: m.quantity + o.quantity,
                availability: true,
                ..m
            };
            self.drugs.set(pos, restored);
            self.orders.set(order_id as usize, Order { status: OrderStatus::Failed, ..o });
            proof {
                let oldorders = old(self).orders@;
                let olddrugs = old(self).drugs@;
                let newo = self.orders@[order_id as int];
                assert forall|i: int| 0 <= i < self.drugs@.len() implies {
                    let md = #[trigger] self.drugs@[i];
                    md.quantity + pending_total(self.orders@, md.id) <= MAX_STOCK
                } by {
                    let md = self.drugs@[i];
                    let f = |x: Order| if x.medicine_id == md.id && x.status is Pending {
                        x.quantity as int
                    } else {
                        0
                    };
                    lemma_sum_by_update(oldorders, f, order_id as int, newo);
                    if i != pos as int {
                        assert(olddrugs[i].id != olddrugs[pos as int].id);
                    }
                }
                assert forall|i: int| 0 <= i < self.orders@.len() implies has_medicine(
                    self.drugs@,
                    (#[trigger] self.orders@[i]).medicine_id,
                ) by {
                    let j = choose|j: int|
                        0 <= j < olddrugs.len() && olddrugs[j].id == self.orders@[i].medicine_id;
                    assert(self.drugs@[j].id == self.orders@[i].medicine_id);
                }
            }
            Ok(())
        }
    }
}

} // verus!
