use coffee_maker::structs::order::Order;

#[test]
fn test_new_order() {
    let (id, ground_coffee, hot_water, cocoa, milk_foam) = (1, 2, 3, 4, 5);
    match Order::new(id, ground_coffee, hot_water, cocoa, milk_foam) {
        Ok(order) => {
            assert_eq!(order.id, 1);
            assert_eq!(order.ground_coffee, 2);
            assert_eq!(order.hot_water, 3);
            assert_eq!(order.cocoa, 4);
            assert_eq!(order.milk_foam, 5);
        }
        Err(e) => {
            println!("[ERROR] Testeando order new: {:?}", e);
        }
    }
}

#[test]
fn test_from_file_record() {
    match Order::from_file_record("2,3,4,5", 1) {
        Ok(order) => {
            assert_eq!(order.id, 1);
            assert_eq!(order.ground_coffee, 2);
            assert_eq!(order.hot_water, 3);
            assert_eq!(order.cocoa, 4);
            assert_eq!(order.milk_foam, 5);
        }
        Err(e) => {
            println!("[ERROR] Testeando from_file_record: {:?}", e);
        }
    }
}

#[test]
fn test_check_if_ready() {
    match Order::from_file_record("2,3,4,5", 1) {
        Ok(order) => {
            assert_eq!(order.check_if_ready(), false);
        }
        Err(e) => {
            println!("[ERROR] Testeando from_file_record: {:?}", e);
        }
    }
    match Order::from_file_record("0,0,0,0", 1) {
        Ok(order) => {
            assert_eq!(order.check_if_ready(), true);
        }
        Err(e) => {
            println!("[ERROR] Testeando from_file_record: {:?}", e);
        }
    }
}

#[test]
fn test_from_file_record_plus_sign_and_extra_fields() {
    let order = Order::from_file_record("+2,3,4,5,99", 7).unwrap();
    assert_eq!(order.id, 7);
    assert_eq!(order.ground_coffee, 2);
    assert_eq!(order.hot_water, 3);
    assert_eq!(order.cocoa, 4);
    assert_eq!(order.milk_foam, 5);
}

#[test]
fn test_from_file_record_missing_fields() {
    let r = Order::from_file_record("2,3,4", 0);
    assert_eq!(
        r.unwrap_err(),
        "Error, no se encontró espuma de leche en el pedido.".to_string()
    );

    let r = Order::from_file_record("", 0);
    assert_eq!(
        r.unwrap_err(),
        "Valor inválido de café molido.".to_string()
    );
}

#[test]
fn test_from_file_record_invalid_values() {
    let r = Order::from_file_record("dos,3,4,5", 0);
    assert_eq!(r.unwrap_err(), "Valor inválido de café molido.".to_string());

    let r = Order::from_file_record("2,-3,4,5", 0);
    assert_eq!(r.unwrap_err(), "Valor inválido de agua caliente.".to_string());

    let r = Order::from_file_record("2,3,4294967296,5", 0);
    assert_eq!(r.unwrap_err(), "Valor inválido de cacao.".to_string());

    let r = Order::from_file_record("2,3,4,5 ", 0);
    assert_eq!(
        r.unwrap_err(),
        "Valor inválido de espuma de leche.".to_string()
    );

    let order = Order::from_file_record("2,3,4294967295,5", 0).unwrap();
    assert_eq!(order.cocoa, 4294967295);
}
