use sov::columnar::ColumnStore;

fn store_from_rows(arity: usize, rows: &[Vec<u64>]) -> ColumnStore<u64> {
    let mut s = ColumnStore::new(arity);
    for r in rows {
        s.push(r.clone());
    }
    s
}

fn all_columns_len(s: &ColumnStore<u64>, arity: usize) -> Vec<usize> {
    (0..arity).map(|j| s.column(j).len()).collect()
}

#[test]
fn push_get_round_trip() {
    let rows = vec![
        vec![1u64, 10, 100],
        vec![2, 20, 200],
        vec![3, 30, 300],
        vec![4, 40, 400],
    ];
    let s = store_from_rows(3, &rows);
    assert_eq!(s.len(), 4);
    for (i, r) in rows.iter().enumerate() {
        assert_eq!(s.get(i), *r);
    }
}

#[test]
fn interleaved_mutations_keep_columns_equal() {
    let mut s = ColumnStore::new(2);
    s.push(vec![1, 2]);
    s.push(vec![3, 4]);
    s.insert(1, vec![5, 6]);
    assert_eq!(all_columns_len(&s, 2), vec![3, 3]);
    assert_eq!(s.len(), 3);
    let removed = s.remove(0);
    assert_eq!(removed, vec![1, 2]);
    assert_eq!(all_columns_len(&s, 2), vec![2, 2]);
    s.push(vec![7, 8]);
    let swapped = s.swap_remove(0);
    assert_eq!(swapped, vec![5, 6]);
    assert_eq!(all_columns_len(&s, 2), vec![2, 2]);
    let popped = s.pop();
    assert!(popped.is_some());
    assert_eq!(all_columns_len(&s, 2), vec![1, 1]);
    assert_eq!(s.len(), 1);
}

#[test]
fn pop_on_empty_yields_none() {
    let mut s: ColumnStore<u64> = ColumnStore::new(2);
    assert!(s.is_empty());
    assert_eq!(s.pop(), None);
    assert_eq!(s.len(), 0);
}

#[test]
fn pop_returns_former_last_row() {
    let rows = vec![vec![1u64, 2], vec![3, 4], vec![5, 6]];
    let mut s = store_from_rows(2, &rows);
    let popped = s.pop();
    assert_eq!(popped, Some(vec![5, 6]));
    assert_eq!(s.len(), 2);
    assert_eq!(s.get(0), vec![1, 2]);
    assert_eq!(s.get(1), vec![3, 4]);
}

#[test]
fn insert_then_remove_restores() {
    let rows = vec![vec![1u64], vec![2], vec![3]];
    let mut s = store_from_rows(1, &rows);
    s.insert(1, vec![99]);
    assert_eq!(s.len(), 4);
    assert_eq!(s.get(1), vec![99]);
    let back = s.remove(1);
    assert_eq!(back, vec![99]);
    assert_eq!(s.len(), 3);
    for (i, r) in rows.iter().enumerate() {
        assert_eq!(s.get(i), *r);
    }
}

#[test]
fn swap_remove_moves_last_into_place() {
    let rows = vec![vec![1u64, 9], vec![2, 8], vec![3, 7], vec![4, 6]];
    let mut s = store_from_rows(2, &rows);
    let gone = s.swap_remove(1);
    assert_eq!(gone, vec![2, 8]);
    assert_eq!(s.len(), 3);
    // the former last row now stands at the removed position
    assert_eq!(s.get(1), vec![4, 6]);
    // every other surviving position is unchanged
    assert_eq!(s.get(0), vec![1, 9]);
    assert_eq!(s.get(2), vec![3, 7]);
}

#[test]
fn with_capacity_starts_empty() {
    let s: ColumnStore<u64> = ColumnStore::with_capacity(3, 64);
    assert_eq!(s.len(), 0);
    assert!(s.is_empty());
    assert_eq!(all_columns_len(&s, 3), vec![0, 0, 0]);
}

#[test]
fn column_sum_matches_row_sum() {
    // the x/y record scenario: push many rows of a 64-bit x and an 8-bit
    // y, then sum the x column and compare bit-for-bit with the
    // row-oriented sum
    let mut s: ColumnStore<u64> = ColumnStore::new(2);
    let mut row_store: Vec<(u64, u8)> = Vec::new();
    let mut seed: u64 = 0x9e3779b97f4a7c15;
    for _ in 0..100_000 {
        seed = seed.wrapping_mul(6364136223846793005).wrapping_add(1442695040888963407);
        let x = seed;
        let y = (seed >> 56) as u8;
        row_store.push((x, y));
        s.push(vec![x, y as u64]);
    }
    assert_eq!(s.len(), 100_000);
    let column_sum = s.column(0).iter().fold(0u64, |a, v| a.wrapping_add(*v));
    let row_sum = row_store.iter().fold(0u64, |a, (x, _)| a.wrapping_add(*x));
    assert_eq!(column_sum, row_sum);
    let y_column_sum = s.column(1).iter().fold(0u64, |a, v| a.wrapping_add(*v));
    let y_row_sum = row_store.iter().fold(0u64, |a, (_, y)| a.wrapping_add(*y as u64));
    assert_eq!(y_column_sum, y_row_sum);
}
