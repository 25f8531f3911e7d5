use rmpfit::binding::{all_indices, free_indices, validate, ParamCheck};
use rmpfit::types::MPError;

fn free() -> ParamCheck {
    ParamCheck {
        fixed: false,
        limited_low: false,
        limited_up: false,
        below_low: false,
        above_up: false,
        limits_crossed: false,
    }
}

fn fixed() -> ParamCheck {
    ParamCheck { fixed: true, ..free() }
}

#[test]
fn no_data_is_empty() {
    assert_eq!(validate(0, 2, None), Err(MPError::Empty));
    let c = vec![fixed(), fixed()];
    assert_eq!(validate(0, 2, Some(&c)), Err(MPError::Empty));
    assert_eq!(validate(0, 0, None), Err(MPError::Empty));
}

#[test]
fn empty_constraints_are_empty() {
    let c: Vec<ParamCheck> = vec![];
    assert_eq!(validate(3, 2, Some(&c)), Err(MPError::Empty));
}

#[test]
fn mis_sized_constraints_are_input() {
    let c = vec![free()];
    assert_eq!(validate(3, 2, Some(&c)), Err(MPError::Input));
}

#[test]
fn all_fixed_is_no_free() {
    let c = vec![fixed(), fixed(), fixed()];
    assert_eq!(validate(10, 3, Some(&c)), Err(MPError::NoFree));
    assert_eq!(validate(1, 3, Some(&c)), Err(MPError::NoFree));
}

#[test]
fn no_parameters_is_no_free() {
    assert_eq!(validate(4, 0, None), Err(MPError::NoFree));
}

#[test]
fn dof_boundary() {
    // m == nfree is accepted, m == nfree - 1 is not
    assert_eq!(validate(2, 2, None), Ok(vec![0, 1]));
    assert_eq!(validate(1, 2, None), Err(MPError::DoF));
    let c = vec![free(), fixed(), free()];
    assert_eq!(validate(2, 3, Some(&c)), Ok(vec![0, 2]));
    assert_eq!(validate(1, 3, Some(&c)), Err(MPError::DoF));
}

#[test]
fn degenerate_bound_with_outside_start_is_init_bounds() {
    // limits [0, 0], initial value 5
    let p = ParamCheck {
        limited_low: true,
        limited_up: true,
        above_up: true,
        ..free()
    };
    let c = vec![p, free()];
    assert_eq!(validate(2, 2, Some(&c)), Err(MPError::InitBounds));
}

#[test]
fn below_lower_limit_is_init_bounds() {
    let p = ParamCheck { limited_low: true, below_low: true, ..free() };
    let c = vec![free(), p];
    assert_eq!(validate(5, 2, Some(&c)), Err(MPError::InitBounds));
}

#[test]
fn inactive_limit_is_not_checked() {
    let p = ParamCheck { below_low: true, above_up: true, limits_crossed: true, ..free() };
    let c = vec![p];
    assert_eq!(validate(1, 1, Some(&c)), Ok(vec![0]));
}

#[test]
fn fixed_outside_limits_is_accepted() {
    let p = ParamCheck { fixed: true, limited_up: true, above_up: true, ..free() };
    let c = vec![p, free()];
    assert_eq!(validate(3, 2, Some(&c)), Ok(vec![1]));
}

#[test]
fn crossed_limits_are_bounds() {
    let p = ParamCheck {
        fixed: true,
        limited_low: true,
        limited_up: true,
        limits_crossed: true,
        ..free()
    };
    let c = vec![p, free()];
    assert_eq!(validate(3, 2, Some(&c)), Err(MPError::Bounds));
}

#[test]
fn init_bounds_before_bounds() {
    let crossed = ParamCheck {
        limited_low: true,
        limited_up: true,
        below_low: true,
        limits_crossed: true,
        ..free()
    };
    let c = vec![crossed];
    assert_eq!(validate(3, 1, Some(&c)), Err(MPError::InitBounds));
}

#[test]
fn first_parameter_fixed_leaves_one_free() {
    let c = vec![fixed(), free()];
    let r = validate(2, 2, Some(&c)).unwrap();
    assert_eq!(r, vec![1]);
    assert_eq!(r.len(), 1);
}

#[test]
fn free_indices_in_order() {
    let c = vec![free(), fixed(), fixed(), free(), free()];
    assert_eq!(free_indices(&c), vec![0, 3, 4]);
    assert_eq!(free_indices(&vec![]), Vec::<usize>::new());
    assert_eq!(all_indices(4), vec![0, 1, 2, 3]);
    assert_eq!(all_indices(0), Vec::<usize>::new());
}
