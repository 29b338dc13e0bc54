use topohedral_modeller::ndarray::{IndexHelper, NDArrayWrapper};

#[test]
fn linear_index2() {
    let data: Vec<f64> = (0..12).map(|n| n as f64).collect();
    let lin_idx = NDArrayWrapper::new(data, &[3, 4]);

    let mut idx1 = 0;
    let mut val1 = 0.0;
    for j in 0..4 {
        for i in 0..3 {
            let tuple1 = [i, j];
            let tuple2 = lin_idx.idx_helper().tuple_index(idx1);
            let idx2 = lin_idx.idx_helper().lin_index(&tuple1);
            let val2 = *lin_idx.get(&tuple1);
            assert_eq!(idx1, idx2);
            assert_eq!(tuple1, tuple2);
            assert_eq!(val1, val2);
            idx1 += 1;
            val1 += 1.0;
        }
    }
}

#[test]
fn linear_index3() {
    let data: Vec<f64> = (0..24).map(|n| n as f64).collect();
    let lin_idx = NDArrayWrapper::new(data, &[3, 4, 2]);

    let mut idx1 = 0;
    let mut val1 = 0.0;
    for k in 0..2 {
        for j in 0..4 {
            for i in 0..3 {
                let tuple1 = [i, j, k];
                let tuple2 = lin_idx.idx_helper().tuple_index(idx1);
                let idx2 = lin_idx.idx_helper().lin_index(&tuple1);
                let val2 = *lin_idx.get(&tuple1);
                assert_eq!(idx1, idx2);
                assert_eq!(tuple1, tuple2);
                assert_eq!(val1, val2);
                idx1 += 1;
                val1 += 1.0;
            }
        }
    }
}

#[test]
fn print1() {
    let data: Vec<f64> = (0..24).map(|n| n as f64).collect();
    let lin_idx: NDArrayWrapper<f64, 1> = NDArrayWrapper::new(data, &[24]);
    println!("{}", lin_idx.to_text());
}

#[test]
fn print2() {
    let data: Vec<f64> = (0..24).map(|n| n as f64).collect();
    let lin_idx: NDArrayWrapper<f64, 2> = NDArrayWrapper::new(data, &[4, 6]);
    println!("{}", lin_idx.to_text());
}

#[test]
fn print3() {
    let data: Vec<f64> = (0..24).map(|n| n as f64).collect();
    let lin_idx: NDArrayWrapper<f64, 3> = NDArrayWrapper::new(data, &[3, 4, 2]);
    println!("{}", lin_idx.to_text());
}

#[test]
fn text_layout_one_dimension() {
    let lin_idx: NDArrayWrapper<i32, 1> = NDArrayWrapper::new(vec![1, 2, 3], &[3]);
    assert_eq!(lin_idx.to_text(), "[1, 2, 3]");
}

#[test]
fn text_layout_two_dimensions() {
    // element [i, j] sits at i + 2 * j, so the rows are [0, 2, 4] and [1, 3, 5]
    let lin_idx: NDArrayWrapper<i32, 2> = NDArrayWrapper::new(vec![0, 1, 2, 3, 4, 5], &[2, 3]);
    assert_eq!(lin_idx.to_text(), "[\n [0, 2, 4]\n [1, 3, 5]\n]\n");
}

#[test]
fn text_layout_three_dimensions() {
    let lin_idx: NDArrayWrapper<i32, 3> =
        NDArrayWrapper::new(vec![10, 11, 12, 13], &[2, 1, 2]);
    assert_eq!(
        lin_idx.to_text(),
        "[0, 0, 0]: 10\n[1, 0, 0]: 11\n[0, 0, 1]: 12\n[1, 0, 1]: 13\n"
    );
}

#[test]
fn set_writes_the_addressed_element() {
    let mut arr: NDArrayWrapper<u32, 2> = NDArrayWrapper::new(vec![0; 6], &[3, 2]);
    arr.set(&[2, 1], 7);
    assert_eq!(*arr.get(&[2, 1]), 7);
    assert_eq!(arr.into_data(), vec![0, 0, 0, 0, 0, 7]);
}

#[test]
fn index_helper_uses_leading_dimensions() {
    let helper: IndexHelper<2> = IndexHelper::new(&[5, 7, 9]);
    assert_eq!(helper.lin_index(&[4, 6]), 34);
    assert_eq!(helper.tuple_index(34), [4, 6]);
    assert_eq!(helper.tuple_index(12), [2, 2]);
    // linear indices past the end wrap around the array size
    assert_eq!(helper.tuple_index(40), [0, 1]);
}
