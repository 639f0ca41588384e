use vstd::prelude::*;
use vstd::slice::slice_index_get;
use vstd::string::StringSliceAdditionalSpecFns;
use vstd::utf8::encode_utf8;

use crate::helpers::constants::{A, C, E, G, L, M};
use crate::helpers::error::CustomError;
use crate::structs::cocoa_container::CocoaContainer;
use crate::structs::coffee_container::CoffeeContainer;
use crate::structs::hot_water_container::HotWaterContainer;
use crate::structs::milk_container::MilkContainer;
use crate::structs::order::{order_progress, record_valid, record_values, Order};
use crate::structs::statistics_values::StatisticsValues;

verus! {

/// The whole machine: the four ingredient pools and the statistics
/// counters, taken through one serial step at a time.  The concurrent
/// driver outside the crate wraps each pool in its own lock and performs
/// the very same transitions under it.
#[derive(Debug, PartialEq, Eq, Structural, Clone, Copy)]
pub struct CoffeeMaker {
    /// Ground coffee and its raw-bean reserve.
    pub coffee_container: CoffeeContainer,
    /// Hot water, fed from the mains.
    pub hot_water_container: HotWaterContainer,
    /// Cocoa powder, never refilled.
    pub cocoa_container: CocoaContainer,
    /// Milk foam and its cold-milk reserve.
    pub milk_container: MilkContainer,
    /// Counters shared with the statistics reporter.
    pub statistics_values: StatisticsValues,
}

/// One atomic reading of every counter of the machine.
#[derive(Debug, PartialEq, Eq, Structural, Clone, Copy)]
pub struct StatisticsSnapshot {
    /// Number of orders completed so far.
    pub orders_served: u32,
    /// Raw coffee beans already ground.
    pub coffee_grains_used: u32,
    /// Ground coffee already consumed.
    pub ground_coffee_used: u32,
    /// Raw coffee beans still in reserve.
    pub coffee_grains_container: u32,
    /// Ground coffee available.
    pub ground_coffee_container: u32,
    /// Hot water already consumed.
    pub hot_water_used: u32,
    /// Hot water available.
    pub hot_water_container: u32,
    /// Cocoa already consumed.
    pub cocoa_used: u32,
    /// Cocoa available.
    pub cocoa_container: u32,
    /// Cold milk already frothed.
    pub cold_milk_used: u32,
    /// Milk foam already consumed.
    pub milk_foam_used: u32,
    /// Cold milk still in reserve.
    pub cold_milk_container: u32,
    /// Milk foam available.
    pub milk_foam_container: u32,
    /// Whether shutdown had been signaled at the time of the reading.
    pub shutdown: bool,
}

/// The serial outcome of asking the coffee pool for an order's ground
/// coffee: the order and pool afterwards, and whether the requirement was
/// (or will eventually be) satisfiable at all.
pub open spec fn try_serve_ground_coffee_spec(o: Order, c: CoffeeContainer) -> (
    Order,
    CoffeeContainer,
    bool,
) {
    let need = o.ground_coffee;
    if need == 0 {
        (o, c, true)
    } else if need > c.ground_coffee_container + c.coffee_grains_container {
        (o, c, false)
    } else if need <= c.ground_coffee_container {
        ((Order { ground_coffee: 0, ..o }), c.serve_spec(need), true)
    } else if need <= M {
        ((Order { ground_coffee: 0, ..o }), c.refill_spec().serve_spec(need), true)
    } else {
        (o, c, false)
    }
}

/// The serial outcome of asking the hot-water pool for an order's water.
/// The mains never run dry, so only a requirement beyond the container's
/// capacity is unsatisfiable.
pub open spec fn try_serve_hot_water_spec(o: Order, w: HotWaterContainer) -> (
    Order,
    HotWaterContainer,
    bool,
) {
    let need = o.hot_water;
    if need == 0 {
        (o, w, true)
    } else if need <= w.hot_water {
        ((Order { hot_water: 0, ..o }), w.serve_spec(need), true)
    } else if need <= A {
        ((Order { hot_water: 0, ..o }), w.refill_spec().serve_spec(need), true)
    } else {
        (o, w, false)
    }
}

/// The serial outcome of asking the cocoa pool for an order's cocoa.
/// Cocoa has no reserve: whatever is not on hand will never come.
pub open spec fn try_serve_cocoa_spec(o: Order, k: CocoaContainer) -> (
    Order,
    CocoaContainer,
    bool,
) {
    let need = o.cocoa;
    if need == 0 {
        (o, k, true)
    } else if need <= k.cocoa {
        ((Order { cocoa: 0, ..o }), k.serve_spec(need), true)
    } else {
        (o, k, false)
    }
}

/// The serial outcome of asking the milk pool for an order's foam.
pub open spec fn try_serve_milk_foam_spec(o: Order, l: MilkContainer) -> (
    Order,
    MilkContainer,
    bool,
) {
    let need = o.milk_foam;
    if need == 0 {
        (o, l, true)
    } else if need > l.milk_foam_container + l.cold_milk_container {
        (o, l, false)
    } else if need <= l.milk_foam_container {
        ((Order { milk_foam: 0, ..o }), l.serve_spec(need), true)
    } else if need <= E {
        ((Order { milk_foam: 0, ..o }), l.refill_spec().serve_spec(need), true)
    } else {
        (o, l, false)
    }
}

/// The serial outcome of preparing one order: the pools are asked in the
/// fixed order ground coffee, hot water, cocoa, milk foam; the first
/// permanently unsatisfiable requirement abandons the order, and a fully
/// served order bumps the served counter.
pub open spec fn prepare_order_spec(m: CoffeeMaker, o: Order) -> (CoffeeMaker, Order, bool) {
    let step1 = try_serve_ground_coffee_spec(o, m.coffee_container);
    let m1 = (CoffeeMaker { coffee_container: step1.1, ..m });
    if !step1.2 {
        (m1, step1.0, false)
    } else {
        let step2 = try_serve_hot_water_spec(step1.0, m1.hot_water_container);
        let m2 = (CoffeeMaker { hot_water_container: step2.1, ..m1 });
        if !step2.2 {
            (m2, step2.0, false)
        } else {
            let step3 = try_serve_cocoa_spec(step2.0, m2.cocoa_container);
            let m3 = (CoffeeMaker { cocoa_container: step3.1, ..m2 });
            if !step3.2 {
                (m3, step3.0, false)
            } else {
                let step4 = try_serve_milk_foam_spec(step3.0, m3.milk_container);
                let m4 = (CoffeeMaker { milk_container: step4.1, ..m3 });
                if !step4.2 {
                    (m4, step4.0, false)
                } else {
                    let served = (CoffeeMaker {
                        statistics_values: StatisticsValues {
                            orders_served: (m4.statistics_values.orders_served + 1) as u32,
                            ..m4.statistics_values
                        },
                        ..m4
                    });
                    (served, step4.0, true)
                }
            }
        }
    }
}

/// The order a valid record denotes.
pub open spec fn order_of_record(l: Seq<u8>, id: u32) -> Order {
    Order {
        id,
        ground_coffee: record_values(l).0,
        hot_water: record_values(l).1,
        cocoa: record_values(l).2,
        milk_foam: record_values(l).3,
    }
}

/// The machine after working through a sequence of record lines, one order
/// at a time: invalid records are skipped, valid ones are prepared and get
/// consecutive identifiers.
pub open spec fn take_orders_spec(m: CoffeeMaker, lines: Seq<Seq<u8>>, id: u32) -> CoffeeMaker
    decreases lines.len(),
{
    if lines.len() == 0 {
        m
    } else if record_valid(lines[0]) {
        take_orders_spec(
            prepare_order_spec(m, order_of_record(lines[0], id)).0,
            lines.drop_first(),
            (id + 1) as u32,
        )
    } else {
        take_orders_spec(m, lines.drop_first(), id)
    }
}

/// The byte sequences of a sequence of record lines.
pub open spec fn lines_bytes(lines: Seq<String>) -> Seq<Seq<u8>> {
    Seq::new(lines.len(), |i: int| encode_utf8(lines[i]@))
}

/// The machine after shutdown has been signaled: every shutdown flag is
/// set and nothing else changes.
pub open spec fn send_shutdown_signal_spec(m: CoffeeMaker) -> CoffeeMaker {
    CoffeeMaker {
        coffee_container: CoffeeContainer { shutdown: true, ..m.coffee_container },
        milk_container: MilkContainer { shutdown: true, ..m.milk_container },
        hot_water_container: HotWaterContainer { shutdown: true, ..m.hot_water_container },
        statistics_values: StatisticsValues { shutdown: true, ..m.statistics_values },
        ..m
    }
}

/// Signaling shutdown twice is the same as signaling it once: the flags
/// are already set and nothing else is touched.
pub proof fn lemma_shutdown_idempotent(m: CoffeeMaker)
    ensures
        send_shutdown_signal_spec(send_shutdown_signal_spec(m)) == send_shutdown_signal_spec(m),
{
}

/// Whether, along a serial run over `lines`, every record is valid and
/// every resulting order is served to completion.
pub open spec fn all_orders_served(m: CoffeeMaker, lines: Seq<Seq<u8>>, id: u32) -> bool
    decreases lines.len(),
{
    if lines.len() == 0 {
        true
    } else {
        &&& record_valid(lines[0])
        &&& prepare_order_spec(m, order_of_record(lines[0], id)).2
        &&& all_orders_served(
            prepare_order_spec(m, order_of_record(lines[0], id)).0,
            lines.drop_first(),
            (id + 1) as u32,
        )
    }
}

/// The summed ground-coffee requirement of a batch of records.
pub open spec fn total_ground_coffee(lines: Seq<Seq<u8>>) -> int
    decreases lines.len(),
{
    if lines.len() == 0 {
        0
    } else {
        record_values(lines[0]).0 + total_ground_coffee(lines.drop_first())
    }
}

/// The summed hot-water requirement of a batch of records.
pub open spec fn total_hot_water(lines: Seq<Seq<u8>>) -> int
    decreases lines.len(),
{
    if lines.len() == 0 {
        0
    } else {
        record_values(lines[0]).1 + total_hot_water(lines.drop_first())
    }
}

/// The summed cocoa requirement of a batch of records.
pub open spec fn total_cocoa(lines: Seq<Seq<u8>>) -> int
    decreases lines.len(),
{
    if lines.len() == 0 {
        0
    } else {
        record_values(lines[0]).2 + total_cocoa(lines.drop_first())
    }
}

/// The summed milk-foam requirement of a batch of records.
pub open spec fn total_milk_foam(lines: Seq<Seq<u8>>) -> int
    decreases lines.len(),
{
    if lines.len() == 0 {
        0
    } else {
        record_values(lines[0]).3 + total_milk_foam(lines.drop_first())
    }
}

/// Preparing one order keeps the machine well formed; when the order is
/// served, every consumption counter grows by exactly the order's
/// requirement, and by nothing more on any path.
pub proof fn lemma_prepare_order_spec(m: CoffeeMaker, o: Order)
    requires
        m.wf(),
        m.hot_water_container.used + A <= u32::MAX,
        m.statistics_values.orders_served < u32::MAX,
    ensures
        prepare_order_spec(m, o).0.wf(),
        prepare_order_spec(m, o).0.hot_water_container.used <= m.hot_water_container.used + A,
        prepare_order_spec(m, o).0.statistics_values.orders_served <= m.statistics_values.orders_served + 1,
        prepare_order_spec(m, o).2 ==> {
            let m2 = prepare_order_spec(m, o).0;
            &&& m2.coffee_container.ground_coffee_used == m.coffee_container.ground_coffee_used
                + o.ground_coffee
            &&& m2.hot_water_container.used == m.hot_water_container.used + o.hot_water
            &&& m2.cocoa_container.used == m.cocoa_container.used + o.cocoa
            &&& m2.milk_container.milk_foam_used == m.milk_container.milk_foam_used + o.milk_foam
            &&& m2.statistics_values.orders_served == m.statistics_values.orders_served + 1
        },
{
}

/// No order is served twice and none is dropped: in a serial run where
/// every record is valid and every order completes, each pool's
/// consumption counter grows by exactly the summed requirement of the
/// batch, and the served count by exactly the number of records.
pub proof fn lemma_no_double_serve(m: CoffeeMaker, lines: Seq<Seq<u8>>, id: u32)
    requires
        m.wf(),
        m.hot_water_container.used + A * lines.len() <= u32::MAX,
        m.statistics_values.orders_served + lines.len() <= u32::MAX,
        all_orders_served(m, lines, id),
    ensures
        take_orders_spec(m, lines, id).coffee_container.ground_coffee_used
            == m.coffee_container.ground_coffee_used + total_ground_coffee(lines),
        take_orders_spec(m, lines, id).hot_water_container.used == m.hot_water_container.used
            + total_hot_water(lines),
        take_orders_spec(m, lines, id).cocoa_container.used == m.cocoa_container.used
            + total_cocoa(lines),
        take_orders_spec(m, lines, id).milk_container.milk_foam_used
            == m.milk_container.milk_foam_used + total_milk_foam(lines),
        take_orders_spec(m, lines, id).statistics_values.orders_served
            == m.statistics_values.orders_served + lines.len(),
    decreases lines.len(),
{
    if lines.len() > 0 {
        let o = order_of_record(lines[0], id);
        lemma_prepare_order_spec(m, o);
        lemma_no_double_serve(prepare_order_spec(m, o).0, lines.drop_first(), (id + 1) as u32);
    }
}

impl CoffeeMaker {
    /// Every pool satisfies its own invariant.
    pub open spec fn wf(self) -> bool {
        &&& self.coffee_container.wf()
        &&& self.hot_water_container.wf()
        &&& self.cocoa_container.wf()
        &&& self.milk_container.wf()
    }

    pub fn new() -> (machine: CoffeeMaker)
        ensures
            machine.coffee_container == (CoffeeContainer {
                coffee_grains_container: G,
                ground_coffee_container: M,
                coffee_grains_used: 0,
                ground_coffee_used: 0,
                shutdown: false,
            }),
            machine.hot_water_container == (HotWaterContainer {
                hot_water: A,
                used: 0,
                shutdown: false,
            }),
            machine.cocoa_container == (CocoaContainer { cocoa: C, used: 0 }),
            machine.milk_container == (MilkContainer {
                cold_milk_container: L,
                milk_foam_container: E,
                cold_milk_used: 0,
                milk_foam_used: 0,
                shutdown: false,
            }),
            machine.statistics_values == (StatisticsValues { orders_served: 0, shutdown: false }),
            machine.wf(),
    {
        CoffeeMaker {
            coffee_container: CoffeeContainer::new(),
            hot_water_container: HotWaterContainer::new(),
            cocoa_container: CocoaContainer::new(),
            milk_container: MilkContainer::new(),
            statistics_values: StatisticsValues::new(),
        }
    }

    /// Serve an order's ground coffee, grinding more beans first if the
    /// stock on hand does not cover it.  Fails, leaving order and pool
    /// untouched, exactly when the requirement can never be met: it
    /// exceeds the stock plus the reserve, or the container's capacity.
    pub fn try_serve_ground_coffee(order: &mut Order, coffee_container: &mut CoffeeContainer) -> (r:
        Result<(), CustomError>)
        requires
            old(coffee_container).wf(),
        ensures
            ({
                let step = try_serve_ground_coffee_spec(*old(order), *old(coffee_container));
                &&& *final(order) == step.0
                &&& *final(coffee_container) == step.1
                &&& r == (if step.2 {
                    Result::<(), CustomError>::Ok(())
                } else {
                    Result::<(), CustomError>::Err(CustomError::InsufficientIngredients)
                })
            }),
            order_progress(*old(order), *final(order)),
            final(coffee_container).wf(),
            r is Ok ==> final(order).ground_coffee == 0,
            r is Err ==> *final(order) == *old(order) && *final(coffee_container) == *old(
                coffee_container,
            ),
            final(coffee_container).coffee_grains_container
                + final(coffee_container).coffee_grains_used == old(
                coffee_container,
            ).coffee_grains_container + old(coffee_container).coffee_grains_used,
            final(coffee_container).ground_coffee_used >= old(coffee_container).ground_coffee_used,
            final(coffee_container).coffee_grains_used >= old(coffee_container).coffee_grains_used,
            final(coffee_container).shutdown == old(coffee_container).shutdown,
    {
        let need = order.ground_coffee;
        if need == 0 {
            return Result::Ok(());
        }
        if !coffee_container.can_ever_serve(need) {
            return Result::Err(CustomError::InsufficientIngredients);
        }
        if coffee_container.can_serve(need) {
            coffee_container.serve(need);
            order.ground_coffee = 0;
            return Result::Ok(());
        }
        if need <= M {
            coffee_container.refill();
            coffee_container.serve(need);
            order.ground_coffee = 0;
            return Result::Ok(());
        }
        Result::Err(CustomError::InsufficientIngredients)
    }

    /// Serve an order's hot water, drawing fresh water from the mains
    /// first if the stock on hand does not cover it.  Fails, leaving order
    /// and pool untouched, exactly when the requirement exceeds the
    /// container's capacity.
    pub fn try_serve_hot_water(order: &mut Order, hot_water_container: &mut HotWaterContainer) -> (
        r: Result<(), CustomError>)
        requires
            old(hot_water_container).wf(),
            old(order).hot_water <= A ==> old(hot_water_container).used + old(order).hot_water
                <= u32::MAX,
        ensures
            ({
                let step = try_serve_hot_water_spec(*old(order), *old(hot_water_container));
                &&& *final(order) == step.0
                &&& *final(hot_water_container) == step.1
                &&& r == (if step.2 {
                    Result::<(), CustomError>::Ok(())
                } else {
                    Result::<(), CustomError>::Err(CustomError::InsufficientIngredients)
                })
            }),
            order_progress(*old(order), *final(order)),
            final(hot_water_container).wf(),
            r is Ok ==> final(order).hot_water == 0,
            r is Err ==> *final(order) == *old(order) && *final(hot_water_container) == *old(
                hot_water_container,
            ),
            final(hot_water_container).used >= old(hot_water_container).used,
            final(hot_water_container).used <= old(hot_water_container).used + A,
            final(hot_water_container).shutdown == old(hot_water_container).shutdown,
    {
        let need = order.hot_water;
        if need == 0 {
            return Result::Ok(());
        }
        if hot_water_container.can_serve(need) {
            hot_water_container.serve(need);
            order.hot_water = 0;
            return Result::Ok(());
        }
        if need <= A {
            hot_water_container.refill();
            hot_water_container.serve(need);
            order.hot_water = 0;
            return Result::Ok(());
        }
        Result::Err(CustomError::InsufficientIngredients)
    }

    /// Serve an order's cocoa.  Cocoa is never replenished, so the call
    /// fails, leaving order and pool untouched, exactly when the
    /// requirement exceeds the stock on hand.
    pub fn try_serve_cocoa(order: &mut Order, cocoa_container: &mut CocoaContainer) -> (r: Result<
        (),
        CustomError,
    >)
        requires
            old(cocoa_container).wf(),
        ensures
            ({
                let step = try_serve_cocoa_spec(*old(order), *old(cocoa_container));
                &&& *final(order) == step.0
                &&& *final(cocoa_container) == step.1
                &&& r == (if step.2 {
                    Result::<(), CustomError>::Ok(())
                } else {
                    Result::<(), CustomError>::Err(CustomError::InsufficientIngredients)
                })
            }),
            order_progress(*old(order), *final(order)),
            final(cocoa_container).wf(),
            r is Ok ==> final(order).cocoa == 0,
            r is Err ==> *final(order) == *old(order) && *final(cocoa_container) == *old(
                cocoa_container,
            ),
            final(cocoa_container).cocoa + final(cocoa_container).used == old(
                cocoa_container,
            ).cocoa + old(cocoa_container).used,
            final(cocoa_container).used >= old(cocoa_container).used,
    {
        let need = order.cocoa;
        if need == 0 {
            return Result::Ok(());
        }
        if cocoa_container.can_serve(need) {
            cocoa_container.serve(need);
            order.cocoa = 0;
            return Result::Ok(());
        }
        Result::Err(CustomError::InsufficientIngredients)
    }

    /// Serve an order's milk foam, frothing more cold milk first if the
    /// stock on hand does not cover it.  Fails, leaving order and pool
    /// untouched, exactly when the requirement can never be met: it
    /// exceeds the stock plus the reserve, or the container's capacity.
    pub fn try_serve_milk_foam(order: &mut Order, milk_container: &mut MilkContainer) -> (r: Result<
        (),
        CustomError,
    >)
        requires
            old(milk_container).wf(),
        ensures
            ({
                let step = try_serve_milk_foam_spec(*old(order), *old(milk_container));
                &&& *final(order) == step.0
                &&& *final(milk_container) == step.1
                &&& r == (if step.2 {
                    Result::<(), CustomError>::Ok(())
                } else {
                    Result::<(), CustomError>::Err(CustomError::InsufficientIngredients)
                })
            }),
            order_progress(*old(order), *final(order)),
            final(milk_container).wf(),
            r is Ok ==> final(order).milk_foam == 0,
            r is Err ==> *final(order) == *old(order) && *final(milk_container) == *old(
                milk_container,
            ),
            final(milk_container).cold_milk_container + final(milk_container).cold_milk_used == old(
                milk_container,
            ).cold_milk_container + old(milk_container).cold_milk_used,
            final(milk_container).milk_foam_used >= old(milk_container).milk_foam_used,
            final(milk_container).cold_milk_used >= old(milk_container).cold_milk_used,
            final(milk_container).shutdown == old(milk_container).shutdown,
    {
        let need = order.milk_foam;
        if need == 0 {
            return Result::Ok(());
        }
        if !milk_container.can_ever_serve(need) {
            return Result::Err(CustomError::InsufficientIngredients);
        }
        if milk_container.can_serve(need) {
            milk_container.serve(need);
            order.milk_foam = 0;
            return Result::Ok(());
        }
        if need <= E {
            milk_container.refill();
            milk_container.serve(need);
            order.milk_foam = 0;
            return Result::Ok(());
        }
        Result::Err(CustomError::InsufficientIngredients)
    }

    /// Prepare one order to completion: ask each pool in turn for its
    /// share, abandon the order on the first permanently unsatisfiable
    /// requirement, and count it as served only when every requirement
    /// reached zero.
    pub fn prepare_order(&mut self, order: &mut Order) -> (r: Result<(), CustomError>)
        requires
            old(self).wf(),
            old(order).hot_water <= A ==> old(self).hot_water_container.used + old(
                order,
            ).hot_water <= u32::MAX,
            old(self).statistics_values.orders_served < u32::MAX,
        ensures
            ({
                let step = prepare_order_spec(*old(self), *old(order));
                &&& *final(self) == step.0
                &&& *final(order) == step.1
                &&& r == (if step.2 {
                    Result::<(), CustomError>::Ok(())
                } else {
                    Result::<(), CustomError>::Err(CustomError::InsufficientIngredients)
                })
            }),
            order_progress(*old(order), *final(order)),
            final(self).wf(),
            r is Ok ==> final(order).is_ready(),
            final(self).hot_water_container.used <= old(self).hot_water_container.used + A,
            final(self).statistics_values.orders_served <= old(
                self,
            ).statistics_values.orders_served + 1,
    {
        if let Result::Err(e) = Self::try_serve_ground_coffee(order, &mut self.coffee_container) {
            return Result::Err(e);
        }
        if let Result::Err(e) = Self::try_serve_hot_water(order, &mut self.hot_water_container) {
            return Result::Err(e);
        }
        if let Result::Err(e) = Self::try_serve_cocoa(order, &mut self.cocoa_container) {
            return Result::Err(e);
        }
        if let Result::Err(e) = Self::try_serve_milk_foam(order, &mut self.milk_container) {
            return Result::Err(e);
        }
        self.statistics_values.record_served();
        Result::Ok(())
    }

    /// Work through a batch of record lines: each valid line becomes an
    /// order with the next identifier and is prepared to completion or
    /// abandoned; invalid lines are skipped.  Afterwards shutdown is
    /// signaled to every pool and to the statistics counters.
    pub fn take_orders(&mut self, lines: &Vec<String>) -> (r: Result<(), CustomError>)
        requires
            old(self).wf(),
            old(self).hot_water_container.used + A * lines@.len() <= u32::MAX,
            old(self).statistics_values.orders_served + lines@.len() <= u32::MAX,
        ensures
            *final(self) == send_shutdown_signal_spec(
                take_orders_spec(*old(self), lines_bytes(lines@), 0),
            ),
            final(self).wf(),
            r == Result::<(), CustomError>::Ok(()),
    {
        let ghost all = lines_bytes(lines@);
        proof {
            assert(all.skip(0) =~= all);
        }
        let mut id: u32 = 0;
        let mut idx: usize = 0;
        while idx < lines.len()
            invariant
                0 <= idx <= lines@.len(),
                lines@.len() <= u32::MAX,
                id <= idx,
                all == lines_bytes(lines@),
                self.wf(),
                self.hot_water_container.used + A * (lines@.len() - idx) <= u32::MAX,
                self.statistics_values.orders_served + (lines@.len() - idx) <= u32::MAX,
                take_orders_spec(*old(self), all, 0) == take_orders_spec(
                    *self,
                    all.skip(idx as int),
                    id,
                ),
            decreases lines@.len() - idx,
        {
            let ghost rest = all.skip(idx as int);
            proof {
                assert(rest[0] == all[idx as int]);
                assert(rest.drop_first() =~= all.skip(idx as int + 1));
            }
            let line = slice_index_get(lines.as_slice(), idx);
            match Order::from_file_record(line.as_str(), id) {
                Result::Ok(mut order) => {
                    proof {
                        assert(record_valid(rest[0]));
                        assert(order == order_of_record(rest[0], id));
                    }
                    let _ = self.prepare_order(&mut order);
                    id = id + 1;
                },
                Result::Err(_) => {
                    proof {
                        assert(!record_valid(rest[0]));
                    }
                },
            }
            idx = idx + 1;
        }
        proof {
            assert(all.skip(lines@.len() as int) =~= Seq::<Seq<u8>>::empty());
        }
        self.send_shutdown_signal()
    }

    /// Set every shutdown flag: the grinder, the frother, the water heater
    /// and the statistics reporter will all observe it and terminate.
    /// Nothing else is touched, so signaling again changes nothing.
    pub fn send_shutdown_signal(&mut self) -> (r: Result<(), CustomError>)
        ensures
            *final(self) == send_shutdown_signal_spec(*old(self)),
            final(self).coffee_container.shutdown,
            final(self).milk_container.shutdown,
            final(self).hot_water_container.shutdown,
            final(self).statistics_values.shutdown,
            old(self).wf() ==> final(self).wf(),
            r == Result::<(), CustomError>::Ok(()),
    {
        self.coffee_container.shutdown = true;
        self.milk_container.shutdown = true;
        self.hot_water_container.shutdown = true;
        self.statistics_values.shutdown = true;
        Result::Ok(())
    }

    /// Read every counter of the machine in one consistent observation.
    pub fn collect_statistics(&self) -> (snapshot: StatisticsSnapshot)
        ensures
            snapshot.orders_served == self.statistics_values.orders_served,
            snapshot.coffee_grains_used == self.coffee_container.coffee_grains_used,
            snapshot.ground_coffee_used == self.coffee_container.ground_coffee_used,
            snapshot.coffee_grains_container == self.coffee_container.coffee_grains_container,
            snapshot.ground_coffee_container == self.coffee_container.ground_coffee_container,
            snapshot.hot_water_used == self.hot_water_container.used,
            snapshot.hot_water_container == self.hot_water_container.hot_water,
            snapshot.cocoa_used == self.cocoa_container.used,
            snapshot.cocoa_container == self.cocoa_container.cocoa,
            snapshot.cold_milk_used == self.milk_container.cold_milk_used,
            snapshot.milk_foam_used == self.milk_container.milk_foam_used,
            snapshot.cold_milk_container == self.milk_container.cold_milk_container,
            snapshot.milk_foam_container == self.milk_container.milk_foam_container,
            snapshot.shutdown == self.statistics_values.shutdown,
    {
        StatisticsSnapshot {
            orders_served: self.statistics_values.orders_served,
            coffee_grains_used: self.coffee_container.coffee_grains_used,
            ground_coffee_used: self.coffee_container.ground_coffee_used,
            coffee_grains_container: self.coffee_container.coffee_grains_container,
            ground_coffee_container: self.coffee_container.ground_coffee_container,
            hot_water_used: self.hot_water_container.used,
            hot_water_container: self.hot_water_container.hot_water,
            cocoa_used: self.cocoa_container.used,
            cocoa_container: self.cocoa_container.cocoa,
            cold_milk_used: self.milk_container.cold_milk_used,
            milk_foam_used: self.milk_container.milk_foam_used,
            cold_milk_container: self.milk_container.cold_milk_container,
            milk_foam_container: self.milk_container.milk_foam_container,
            shutdown: self.statistics_values.shutdown,
        }
    }
}

} // verus!
