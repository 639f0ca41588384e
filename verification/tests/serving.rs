use coffee_maker::helpers::constants::{A, C, E, G, L, M};
use coffee_maker::helpers::error::CustomError;
use coffee_maker::structs::coffee_maker::CoffeeMaker;
use coffee_maker::structs::order::Order;

#[test]
fn test_try_serve_ground_coffee_serial() {
    let mut coffee_maker = CoffeeMaker::new();

    match Order::new(1, 20, 3, 4, 5) {
        Ok(mut order) => {
            match CoffeeMaker::try_serve_ground_coffee(&mut order, &mut coffee_maker.coffee_container) {
                Ok(_) => {
                    assert_eq!(order.ground_coffee, 0);
                    assert_eq!(coffee_maker.coffee_container.ground_coffee_used, 20);
                    assert_eq!(coffee_maker.coffee_container.ground_coffee_container, M - 20);
                }
                Err(e) => {
                    println!("[ERROR] Testeando try_serve_ground_coffee: {:?}", e);
                }
            }
        }
        Err(e) => {
            println!("[ERROR] Testeando try_serve_ground_coffee: {:?}", e);
        }
    }
}

#[test]
fn test_try_serve_hot_water_serial() {
    let mut coffee_maker = CoffeeMaker::new();

    match Order::new(1, 2, 20, 4, 5) {
        Ok(mut order) => {
            match CoffeeMaker::try_serve_hot_water(&mut order, &mut coffee_maker.hot_water_container) {
                Ok(_) => {
                    assert_eq!(order.hot_water, 0);
                    assert_eq!(coffee_maker.hot_water_container.used, 20);
                    assert_eq!(coffee_maker.hot_water_container.hot_water, A - 20);
                }
                Err(e) => {
                    println!("[ERROR] Testeando try_serve_hot_water: {:?}", e);
                }
            }
        }
        Err(e) => {
            println!("[ERROR] Testeando try_serve_hot_water: {:?}", e);
        }
    }
}

#[test]
fn test_try_serve_cocoa_serial() {
    let mut coffee_maker = CoffeeMaker::new();

    match Order::new(1, 2, 3, 20, 5) {
        Ok(mut order) => {
            match CoffeeMaker::try_serve_cocoa(&mut order, &mut coffee_maker.cocoa_container) {
                Ok(_) => {
                    assert_eq!(order.cocoa, 0);
                    assert_eq!(coffee_maker.cocoa_container.used, 20);
                    assert_eq!(coffee_maker.cocoa_container.cocoa, C - 20);
                }
                Err(e) => {
                    println!("[ERROR] Testeando try_serve_cocoa: {:?}", e);
                }
            }
        }
        Err(e) => {
            println!("[ERROR] Testeando try_serve_cocoa: {:?}", e);
        }
    }
}

#[test]
fn test_try_serve_milk_foam_serial() {
    let mut coffee_maker = CoffeeMaker::new();

    match Order::new(1, 2, 3, 4, 20) {
        Ok(mut order) => {
            match CoffeeMaker::try_serve_milk_foam(&mut order, &mut coffee_maker.milk_container) {
                Ok(_) => {
                    assert_eq!(order.milk_foam, 0);
                    assert_eq!(coffee_maker.milk_container.milk_foam_used, 20);
                    assert_eq!(coffee_maker.milk_container.milk_foam_container, E - 20);
                }
                Err(e) => {
                    println!("[ERROR] Testeando try_serve_milk_foam: {:?}", e);
                }
            }
        }
        Err(e) => {
            println!("[ERROR] Testeando try_serve_milk_foam: {:?}", e);
        }
    }
}

#[test]
fn test_try_serve_ground_coffee_two_orders() {
    let mut coffee_maker = CoffeeMaker::new();

    let mut order_1 = Order::new(1, 10, 10, 10, 10).unwrap();
    let mut order_2 = Order::new(2, 10, 10, 10, 10).unwrap();

    assert_eq!(coffee_maker.coffee_container.ground_coffee_container, M);
    assert_eq!(coffee_maker.coffee_container.coffee_grains_container, G);

    CoffeeMaker::try_serve_ground_coffee(&mut order_1, &mut coffee_maker.coffee_container)
        .unwrap();
    CoffeeMaker::try_serve_ground_coffee(&mut order_2, &mut coffee_maker.coffee_container)
        .unwrap();

    assert_eq!(coffee_maker.coffee_container.ground_coffee_container, M - 10 * 2);
    assert_eq!(coffee_maker.coffee_container.ground_coffee_used, 10 * 2);
    assert_eq!(coffee_maker.coffee_container.coffee_grains_container, G);
}

#[test]
fn test_try_serve_hot_water_two_orders() {
    let mut coffee_maker = CoffeeMaker::new();

    let mut order_1 = Order::new(1, 10, 10, 10, 10).unwrap();
    let mut order_2 = Order::new(2, 10, 10, 10, 10).unwrap();

    assert_eq!(coffee_maker.hot_water_container.hot_water, A);

    CoffeeMaker::try_serve_hot_water(&mut order_1, &mut coffee_maker.hot_water_container)
        .unwrap();
    CoffeeMaker::try_serve_hot_water(&mut order_2, &mut coffee_maker.hot_water_container)
        .unwrap();

    assert_eq!(coffee_maker.hot_water_container.hot_water, A - 10 * 2);
    assert_eq!(coffee_maker.hot_water_container.used, 10 * 2);
}

#[test]
fn test_try_serve_cocoa_two_orders() {
    let mut coffee_maker = CoffeeMaker::new();

    let mut order_1 = Order::new(1, 10, 10, 10, 10).unwrap();
    let mut order_2 = Order::new(2, 10, 10, 10, 10).unwrap();

    assert_eq!(coffee_maker.cocoa_container.cocoa, C);

    CoffeeMaker::try_serve_cocoa(&mut order_1, &mut coffee_maker.cocoa_container).unwrap();
    CoffeeMaker::try_serve_cocoa(&mut order_2, &mut coffee_maker.cocoa_container).unwrap();

    assert_eq!(coffee_maker.cocoa_container.cocoa, C - 10 * 2);
    assert_eq!(coffee_maker.cocoa_container.used, 10 * 2);
}

#[test]
fn test_try_serve_milk_foam_two_orders() {
    let mut coffee_maker = CoffeeMaker::new();

    let mut order_1 = Order::new(1, 10, 10, 10, 10).unwrap();
    let mut order_2 = Order::new(2, 10, 10, 10, 10).unwrap();

    assert_eq!(coffee_maker.milk_container.milk_foam_container, E);
    assert_eq!(coffee_maker.milk_container.cold_milk_container, L);

    CoffeeMaker::try_serve_milk_foam(&mut order_1, &mut coffee_maker.milk_container).unwrap();
    CoffeeMaker::try_serve_milk_foam(&mut order_2, &mut coffee_maker.milk_container).unwrap();

    assert_eq!(coffee_maker.milk_container.milk_foam_container, E - 10 * 2);
    assert_eq!(coffee_maker.milk_container.milk_foam_used, 10 * 2);
    assert_eq!(coffee_maker.milk_container.cold_milk_container, L);
}

#[test]
fn test_try_serve_refills_when_stock_is_short() {
    let mut coffee_maker = CoffeeMaker::new();
    coffee_maker.coffee_container.ground_coffee_container = 5;
    coffee_maker.coffee_container.ground_coffee_used = M - 5;

    let mut order = Order::new(1, 60, 0, 0, 0).unwrap();
    CoffeeMaker::try_serve_ground_coffee(&mut order, &mut coffee_maker.coffee_container)
        .unwrap();

    assert_eq!(order.ground_coffee, 0);
    // The grinder tops the container back up to its capacity before the
    // order draws from it.
    assert_eq!(coffee_maker.coffee_container.ground_coffee_container, M - 60);
    assert_eq!(coffee_maker.coffee_container.ground_coffee_used, M - 5 + 60);
    assert_eq!(coffee_maker.coffee_container.coffee_grains_container, G - (M - 5));
    assert_eq!(coffee_maker.coffee_container.coffee_grains_used, M - 5);
}

#[test]
fn test_try_serve_insufficient_is_permanent() {
    let mut coffee_maker = CoffeeMaker::new();

    // More cocoa than the pool will ever hold.
    let mut order = Order::new(1, 0, 0, C + 1, 0).unwrap();
    let r = CoffeeMaker::try_serve_cocoa(&mut order, &mut coffee_maker.cocoa_container);
    assert_eq!(r.unwrap_err(), CustomError::InsufficientIngredients);
    assert_eq!(order.cocoa, C + 1);
    assert_eq!(coffee_maker.cocoa_container.cocoa, C);
    assert_eq!(coffee_maker.cocoa_container.used, 0);

    // More ground coffee than stock and reserve together can yield.
    let mut order = Order::new(2, G + M + 1, 0, 0, 0).unwrap();
    let r = CoffeeMaker::try_serve_ground_coffee(&mut order, &mut coffee_maker.coffee_container);
    assert_eq!(r.unwrap_err(), CustomError::InsufficientIngredients);

    // More hot water than the container's capacity: a single serve can
    // never be satisfied, however often the heater refills.
    let mut order = Order::new(3, 0, A + 1, 0, 0).unwrap();
    let r = CoffeeMaker::try_serve_hot_water(&mut order, &mut coffee_maker.hot_water_container);
    assert_eq!(r.unwrap_err(), CustomError::InsufficientIngredients);
}

#[test]
fn test_send_shutdown_signal() {
    let mut coffee_maker = CoffeeMaker::new();
    if coffee_maker.send_shutdown_signal().is_err() {
        println!("[ERROR] Testeando send_shutdown_signal.");
    }

    assert_eq!(coffee_maker.coffee_container.shutdown, true);
    assert_eq!(coffee_maker.hot_water_container.shutdown, true);
    assert_eq!(coffee_maker.milk_container.shutdown, true);
    assert_eq!(coffee_maker.statistics_values.shutdown, true);
}

#[test]
fn test_send_shutdown_signal_twice() {
    let mut coffee_maker = CoffeeMaker::new();
    coffee_maker.send_shutdown_signal().unwrap();
    let before = coffee_maker;
    let r = coffee_maker.send_shutdown_signal();
    assert!(r.is_ok());
    assert_eq!(coffee_maker, before);
    assert_eq!(coffee_maker.coffee_container.shutdown, true);
    assert_eq!(coffee_maker.hot_water_container.shutdown, true);
    assert_eq!(coffee_maker.milk_container.shutdown, true);
    assert_eq!(coffee_maker.statistics_values.shutdown, true);
}

fn assert_all_stats(
    lines: &Vec<String>,
    grains_used: u32,
    cold_milk_used: u32,
    cocoa_used: u32,
    coffee_used: u32,
    foam_used: u32,
    water_used: u32,
    grains: u32,
    cold_milk: u32,
    cocoa: u32,
    coffee: u32,
    foam: u32,
    water: u32,
    orders_served: u32,
) {
    let mut coffee_maker = CoffeeMaker::new();
    let result = coffee_maker.take_orders(lines);
    assert!(result.is_ok());

    assert_eq!(grains_used, coffee_maker.coffee_container.coffee_grains_used);
    assert_eq!(coffee_used, coffee_maker.coffee_container.ground_coffee_used);
    assert_eq!(grains, coffee_maker.coffee_container.coffee_grains_container);
    assert_eq!(coffee, coffee_maker.coffee_container.ground_coffee_container);
    assert_eq!(true, coffee_maker.coffee_container.shutdown);

    assert_eq!(cocoa_used, coffee_maker.cocoa_container.used);
    assert_eq!(cocoa, coffee_maker.cocoa_container.cocoa);

    assert_eq!(water_used, coffee_maker.hot_water_container.used);
    assert_eq!(water, coffee_maker.hot_water_container.hot_water);
    assert_eq!(true, coffee_maker.hot_water_container.shutdown);

    assert_eq!(cold_milk_used, coffee_maker.milk_container.cold_milk_used);
    assert_eq!(foam_used, coffee_maker.milk_container.milk_foam_used);
    assert_eq!(cold_milk, coffee_maker.milk_container.cold_milk_container);
    assert_eq!(foam, coffee_maker.milk_container.milk_foam_container);
    assert_eq!(true, coffee_maker.milk_container.shutdown);

    assert_eq!(orders_served, coffee_maker.statistics_values.orders_served);
}

#[test]
fn test_take_orders_one_order() {
    let lines = vec!["10,10,10,10".to_string()];
    assert_all_stats(
        &lines,
        0,      // grains_used
        0,      // cold_milk_used
        10,     // cocoa_used
        10,     // coffee_used
        10,     // foam_used
        10,     // water_used
        G,      // grains
        L,      // cold_milk
        C - 10, // cocoa
        M - 10, // coffee
        E - 10, // foam
        A - 10, // water
        1,      // orders_served
    );
}

#[test]
fn test_take_orders_empty() {
    let lines: Vec<String> = Vec::new();
    assert_all_stats(
        &lines,
        0, // grains_used
        0, // cold_milk_used
        0, // cocoa_used
        0, // coffee_used
        0, // foam_used
        0, // water_used
        G, // grains
        L, // cold_milk
        C, // cocoa
        M, // coffee
        E, // foam
        A, // water
        0, // orders_served
    );
}

#[test]
fn test_take_orders_one_invalid_order() {
    let lines = vec!["cafe con leche".to_string()];
    assert_all_stats(
        &lines,
        0, // grains_used
        0, // cold_milk_used
        0, // cocoa_used
        0, // coffee_used
        0, // foam_used
        0, // water_used
        G, // grains
        L, // cold_milk
        C, // cocoa
        M, // coffee
        E, // foam
        A, // water
        0, // orders_served
    );
}

#[test]
fn test_take_orders_multiple_orders_one_invalid() {
    let lines = vec![
        "6,6,7,7".to_string(),
        "6,6,7,7".to_string(),
        "seis,siete".to_string(),
        "6,7,7,8".to_string(),
        "6,7,7,8".to_string(),
    ];
    assert_all_stats(
        &lines,
        0,      // grains_used
        0,      // cold_milk_used
        28,     // cocoa_used
        24,     // coffee_used
        30,     // foam_used
        26,     // water_used
        G,      // grains
        L,      // cold_milk
        C - 28, // cocoa
        M - 24, // coffee
        E - 30, // foam
        A - 26, // water
        4,      // orders_served
    );
}

#[test]
fn test_take_orders_insufficient_flavor() {
    // The order wants more cocoa than the pool's whole capacity, so it is
    // abandoned; ground coffee and hot water were already served when the
    // cocoa pool was probed, and the later milk pool was never touched.
    let lines = vec![format!("10,10,{},10", C + 1)];
    assert_all_stats(
        &lines,
        0,      // grains_used
        0,      // cold_milk_used
        0,      // cocoa_used
        10,     // coffee_used
        0,      // foam_used
        10,     // water_used
        G,      // grains
        L,      // cold_milk
        C,      // cocoa
        M - 10, // coffee
        E,      // foam
        A - 10, // water
        0,      // orders_served
    );
}

#[test]
fn test_prepare_order_success_and_count() {
    let mut coffee_maker = CoffeeMaker::new();
    let mut order = Order::new(0, 10, 10, 10, 10).unwrap();
    let r = coffee_maker.prepare_order(&mut order);
    assert!(r.is_ok());
    assert!(order.check_if_ready());
    assert_eq!(coffee_maker.statistics_values.orders_served, 1);
}

#[test]
fn test_prepare_order_abandoned_keeps_partial_consumption() {
    let mut coffee_maker = CoffeeMaker::new();
    let mut order = Order::new(0, 10, 10, C + 1, 10).unwrap();
    let r = coffee_maker.prepare_order(&mut order);
    assert_eq!(r.unwrap_err(), CustomError::InsufficientIngredients);
    assert!(!order.check_if_ready());
    assert_eq!(order.cocoa, C + 1);
    // Coffee and water were served before the cocoa pool was probed.
    assert_eq!(order.ground_coffee, 0);
    assert_eq!(order.hot_water, 0);
    assert_eq!(order.milk_foam, 10);
    assert_eq!(coffee_maker.statistics_values.orders_served, 0);
}

#[test]
fn test_collect_statistics() {
    let mut coffee_maker = CoffeeMaker::new();
    let lines = vec!["10,20,30,40".to_string()];
    coffee_maker.take_orders(&lines).unwrap();

    let snapshot = coffee_maker.collect_statistics();
    assert_eq!(snapshot.orders_served, 1);
    assert_eq!(snapshot.ground_coffee_used, 10);
    assert_eq!(snapshot.ground_coffee_container, M - 10);
    assert_eq!(snapshot.coffee_grains_used, 0);
    assert_eq!(snapshot.coffee_grains_container, G);
    assert_eq!(snapshot.hot_water_used, 20);
    assert_eq!(snapshot.hot_water_container, A - 20);
    assert_eq!(snapshot.cocoa_used, 30);
    assert_eq!(snapshot.cocoa_container, C - 30);
    assert_eq!(snapshot.milk_foam_used, 40);
    assert_eq!(snapshot.milk_foam_container, E - 40);
    assert_eq!(snapshot.cold_milk_used, 0);
    assert_eq!(snapshot.cold_milk_container, L);
    assert_eq!(snapshot.shutdown, true);
}
