use partial_functional::Functor;

#[test]
fn option_fmap_with_identity_leaves_the_value() {
    let value = Some(5u32);

    assert_eq!(value.fmap(|x| x), Some(5));
    assert_eq!(None::<u32>.fmap(|x| x), None);
}

#[test]
fn option_fmap_composes() {
    let value = Some(5u32);
    let f = |x: u32| x + 2;
    let g = |x: u32| x * 2;

    let twice = value.fmap(f).fmap(g);
    let once = value.fmap(|x| g(f(x)));

    assert_eq!(twice, once);
    assert_eq!(once, Some(14));
}

#[test]
fn option_fmap_changes_the_element_type() {
    let value = Some(3u32);

    assert_eq!(value.fmap(|x| x > 2), Some(true));
    assert_eq!(None::<u32>.fmap(|x| x > 2), None);
}

#[test]
fn result_fmap_with_identity_leaves_the_value() {
    let ok: Result<u32, u8> = Ok(5);
    let err: Result<u32, u8> = Err(7);

    assert_eq!(ok.fmap(|x| x), Ok(5));
    assert_eq!(err.fmap(|x| x), Err(7));
}

#[test]
fn result_fmap_composes_and_keeps_the_error() {
    let ok: Result<u32, u8> = Ok(5);
    let err: Result<u32, u8> = Err(7);
    let f = |x: u32| x + 2;
    let g = |x: u32| x * 2;

    assert_eq!(ok.fmap(f).fmap(g), ok.fmap(|x| g(f(x))));
    assert_eq!(ok.fmap(f).fmap(g), Ok(14));
    assert_eq!(err.fmap(f).fmap(g), Err(7));
}
