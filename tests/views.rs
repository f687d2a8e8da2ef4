use slice_of_array::prelude::{SliceArrayExt, SliceFlatExt, SliceNestExt};

#[test]
fn inference_lattice() {
    // Chaining nest().nest() or nest().as_array() needs no annotation on the
    // first call. std's inherent `as_array` / `as_mut_array` on slices take
    // precedence in method syntax, so those two are called through the trait.
    let mut v = vec![(); 9];

    { let _: &[[(); 3]; 3] = SliceArrayExt::as_array(v.nest()); }
    { let _: &[[[(); 3]; 3]] = v.nest().nest(); }
    { let _: &mut [[(); 3]; 3] = SliceArrayExt::as_mut_array(v.nest_mut()); }
    { let _: &mut [[[(); 3]; 3]] = v.nest_mut().nest_mut(); }
    { let _: [[(); 3]; 3] = v.nest().to_array(); }
    { let _: Vec<[(); 3]> = v.nest().to_vec(); }
}

#[test]
fn test_flat_zero() {
    let mut v = vec![[(); 0]; 6];
    assert_eq!(v.flat(), &[] as &[()]);
    assert_eq!(v.flat_mut(), &[] as &[()]);
}

#[test]
fn test_array_zero() {
    let mut v: Vec<[(); 0]> = vec![[], [], [], []];
    assert_eq!(v.flat(), &[] as &[()]);
    assert_eq!(v.flat_mut(), &[] as &[()]);
}

#[test]
fn flat_of_groups_of_three() {
    let v = vec![[2i32, 2, 2], [7, 7, 7], [4, 4, 4], [1, 1, 1]];
    let f = v.flat();
    assert_eq!(f.len(), 12);
    assert_eq!(f, &[2, 2, 2, 7, 7, 7, 4, 4, 4, 1, 1, 1]);
}

#[test]
fn nest_groups_into_pairs() {
    let v = vec![[2i32, 2, 2], [7, 7, 7], [4, 4, 4], [1, 1, 1]];
    let slc = v.nest::<[_; 2]>();
    assert_eq!(slc, &[[[2i32, 2, 2], [7, 7, 7]], [[4, 4, 4], [1, 1, 1]]]);
}

#[test]
fn nest_flat_into_groups_of_six() {
    let v = vec![2i32, 2, 2, 7, 7, 7, 4, 4, 4, 1, 1, 1];
    let g: &[[i32; 6]] = v.nest();
    assert_eq!(g.len(), 2);
    assert_eq!(g, &[[2, 2, 2, 7, 7, 7], [4, 4, 4, 1, 1, 1]]);
}

#[test]
fn nest_then_flat_gives_back_the_input() {
    let v: Vec<u8> = (0..24).collect();
    let g3: &[[u8; 3]] = v.nest();
    assert_eq!(g3.len(), 8);
    assert_eq!(g3.flat(), &v[..]);
    let g4: &[[u8; 4]] = v.nest();
    assert_eq!(g4.len(), 6);
    assert_eq!(g4[1], [4, 5, 6, 7]);
    assert_eq!(g4.flat(), &v[..]);
    let empty: Vec<u8> = vec![];
    let g: &[[u8; 5]] = empty.nest();
    assert_eq!(g.len(), 0);
    assert_eq!(g.flat(), &[] as &[u8]);
}

#[test]
fn flat_then_nest_gives_back_the_groups() {
    let v = vec![[1u16, 2], [3, 4], [5, 6]];
    let again: &[[u16; 2]] = v.flat().nest();
    assert_eq!(again, &v[..]);
}

#[test]
fn flat_length_is_groups_times_size() {
    let v = vec![[0u32; 5]; 7];
    assert_eq!(v.flat().len(), 35);
    let none: Vec<[u32; 5]> = vec![];
    assert_eq!(none.flat().len(), 0);
    let zero = vec![[0u32; 0]; 7];
    assert_eq!(zero.flat().len(), 0);
}

#[test]
fn as_array_of_exact_length() {
    let v = vec![9u8, 8, 7];
    let a: &[u8; 3] = SliceArrayExt::as_array(&v[..]);
    assert_eq!(a, &[9, 8, 7]);
    let empty: Vec<u8> = vec![];
    let z: &[u8; 0] = SliceArrayExt::as_array(&empty[..]);
    assert_eq!(z.len(), 0);
}

#[test]
fn to_array_copies_out_the_group() {
    let v = vec![String::from("a"), String::from("b")];
    let owned: [String; 2] = v.to_array();
    assert_eq!(owned, [String::from("a"), String::from("b")]);
    assert_eq!(v.len(), 2);
}

#[test]
fn write_through_flat_mut_shows_in_groups() {
    let mut v = vec![[1i32, 2], [3, 4], [5, 6]];
    {
        let f = v.flat_mut();
        assert_eq!(f.len(), 6);
        f[3] = 40;
        f[4] = 50;
    }
    assert_eq!(v, vec![[1, 2], [3, 40], [50, 6]]);
}

#[test]
fn write_through_nest_mut_shows_in_flat() {
    let mut v = vec![1i32, 2, 3, 4, 5, 6];
    {
        let g: &mut [[i32; 3]] = v.nest_mut();
        assert_eq!(g.len(), 2);
        g[1][0] = 40;
        g[0] = [10, 20, 30];
    }
    assert_eq!(v, vec![10, 20, 30, 40, 5, 6]);
}

#[test]
fn write_through_as_mut_array_shows_in_flat() {
    let mut v = vec![1i32, 2, 3, 4];
    {
        let a: &mut [i32; 4] = SliceArrayExt::as_mut_array(&mut v[..]);
        a[0] = 100;
        a.reverse();
    }
    assert_eq!(v, vec![4, 3, 2, 100]);
}
