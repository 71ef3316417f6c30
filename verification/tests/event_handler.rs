use loop_coordinator::EventHandler;

#[test]
fn empty_cell_is_neither_ready_nor_in_use() {
    let cell: EventHandler<u32> = EventHandler::new();
    assert!(!cell.ready());
    assert!(!cell.in_use());
}

#[test]
fn set_installs_a_handler() {
    let mut cell: EventHandler<u32> = EventHandler::new();
    assert_eq!(cell.set(1), Ok(None));
    assert!(cell.ready());
    assert_eq!(cell.clear(), Some(1));
    assert!(!cell.ready());
}

#[test]
fn set_over_another_handler_hands_the_earlier_one_back() {
    let mut cell: EventHandler<u32> = EventHandler::new();
    assert_eq!(cell.set(1), Ok(None));
    let previous = cell.set(2).expect("no call is in progress");
    assert_eq!(previous, Some(1));
    assert_eq!(cell.clear(), Some(2));
    assert_eq!(cell.set(1), Ok(None));
    assert_eq!(cell.clear(), Some(1));
}

#[test]
fn clear_on_an_empty_cell_gives_nothing() {
    let mut cell: EventHandler<u32> = EventHandler::new();
    assert_eq!(cell.clear(), None);
}

#[test]
fn begin_handle_takes_the_handler_out_until_end_handle() {
    let mut cell: EventHandler<u32> = EventHandler::new();
    assert_eq!(cell.set(7), Ok(None));
    assert_eq!(cell.begin_handle(), Some(7));
    assert!(cell.in_use());
    assert!(cell.ready());
    assert_eq!(cell.end_handle(8), Ok(()));
    assert!(cell.ready());
    assert!(!cell.in_use());
    assert_eq!(cell.clear(), Some(8));
}

#[test]
fn a_second_call_is_refused_while_the_first_is_in_progress() {
    let mut cell: EventHandler<u32> = EventHandler::new();
    assert_eq!(cell.set(7), Ok(None));
    assert_eq!(cell.begin_handle(), Some(7));
    assert_eq!(cell.begin_handle(), None);
    assert!(cell.in_use());
}

#[test]
fn a_cell_in_use_takes_no_new_handler_and_gives_none_up() {
    let mut cell: EventHandler<u32> = EventHandler::new();
    assert_eq!(cell.set(7), Ok(None));
    assert_eq!(cell.begin_handle(), Some(7));
    assert_eq!(cell.set(9), Err(9));
    assert_eq!(cell.clear(), None);
    assert!(cell.in_use());
}

#[test]
fn begin_handle_without_a_handler_gives_nothing() {
    let mut cell: EventHandler<u32> = EventHandler::new();
    assert_eq!(cell.begin_handle(), None);
    assert!(!cell.in_use());
}

#[test]
fn end_handle_without_a_call_hands_the_handler_back() {
    let mut cell: EventHandler<u32> = EventHandler::new();
    assert_eq!(cell.end_handle(3), Err(3));
    assert!(!cell.ready());
    assert_eq!(cell.set(4), Ok(None));
    assert_eq!(cell.end_handle(5), Err(5));
    assert_eq!(cell.clear(), Some(4));
}
