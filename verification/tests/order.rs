use tablesoccer::order::by_year_descending;
use tablesoccer::order::without_combined;
use tablesoccer::ranking::RankingClass;

#[test]
fn latest_year_comes_first() {
    assert_eq!(by_year_descending(&vec![]), Vec::<usize>::new());
    assert_eq!(by_year_descending(&vec![2015]), vec![0]);
    assert_eq!(by_year_descending(&vec![2015, 2017, 2016]), vec![1, 2, 0]);
    assert_eq!(by_year_descending(&vec![2010, 2011, 2012, 2013]), vec![3, 2, 1, 0]);
    assert_eq!(by_year_descending(&vec![2013, 2012, 2011]), vec![0, 1, 2]);
    assert_eq!(by_year_descending(&vec![i32::MIN, i32::MAX, 0]), vec![1, 2, 0]);
}

#[test]
fn records_of_one_year_keep_their_order() {
    assert_eq!(by_year_descending(&vec![2015, 2015, 2015]), vec![0, 1, 2]);
    assert_eq!(by_year_descending(&vec![2015, 2016, 2015, 2016, 2014]), vec![1, 3, 0, 2, 4]);
}

#[test]
fn order_agrees_with_a_stable_sort() {
    let years = vec![2012, 2019, 2012, 2010, 2019, 2019, 2011, 2012, 2020, 2010];
    let mut expected: Vec<usize> = (0..years.len()).collect();
    expected.sort_by(|a, b| years[*b].cmp(&years[*a]));
    assert_eq!(by_year_descending(&years), expected);
}

#[test]
fn combined_rankings_are_not_shown() {
    let s = RankingClass::Singles;
    let d = RankingClass::Doubles;
    let c = RankingClass::Combined;
    assert_eq!(without_combined(&vec![]), Vec::<usize>::new());
    assert_eq!(without_combined(&vec![c, c]), Vec::<usize>::new());
    assert_eq!(without_combined(&vec![s, c, d, c, s]), vec![0, 2, 4]);
    assert_eq!(without_combined(&vec![d, s]), vec![0, 1]);
}
