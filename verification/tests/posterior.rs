use emcee::Guess;
use letsbayes::posterior::{ExportError, Posterior};

fn names(list: &[&str]) -> Vec<String> {
    list.iter().map(|name| name.to_string()).collect()
}

fn ten_samples() -> Posterior {
    let chain = (0..10).map(|i| Guess::new(&[i as f32, 0.5 * i as f32])).collect();
    Posterior::new(names(&["a", "b"]), chain)
}

fn data_rows(table: &str) -> Vec<&str> {
    table.lines().skip(1).collect()
}

#[test]
fn export_writes_header_and_rows() {
    let chain = vec![Guess::new(&[1.5, 2.0]), Guess::new(&[-0.25, 1e-3])];
    let posterior = Posterior::new(names(&["m", "b"]), chain);
    assert_eq!(posterior.to_csv(0, 1), Ok("m,b\n1.5,2\n-0.25,0.001\n".to_string()));
}

#[test]
fn full_export_has_one_row_per_sample_in_order() {
    let table = ten_samples().to_csv(0, 1).unwrap();
    assert_eq!(
        table,
        "a,b\n0,0\n1,0.5\n2,1\n3,1.5\n4,2\n5,2.5\n6,3\n7,3.5\n8,4\n9,4.5\n"
    );
    assert_eq!(data_rows(&table).len(), 10);
}

#[test]
fn exported_values_read_back_exactly() {
    let values = [
        [0.1f32, -7.25e-12],
        [1.0 / 3.0, 2.0f32.sqrt()],
        [3.4e38, 1.2e-38],
        [16_777_216.0, -16_777_215.0],
    ];
    let chain = values.iter().map(|row| Guess::new(row)).collect();
    let posterior = Posterior::new(names(&["x", "y"]), chain);
    let table = posterior.to_csv(0, 1).unwrap();
    let mut lines = table.lines();
    assert_eq!(lines.next(), Some("x,y"));
    for row in values.iter() {
        let line = lines.next().unwrap();
        let read: Vec<f32> = line.split(',').map(|cell| cell.parse().unwrap()).collect();
        assert_eq!(read, row.to_vec());
    }
    assert_eq!(lines.next(), None);
}

#[test]
fn burn_in_drops_the_first_samples() {
    let table = ten_samples().to_csv(8, 1).unwrap();
    assert_eq!(table, "a,b\n8,4\n9,4.5\n");
    assert_eq!(data_rows(&table).len(), 2);
}

#[test]
fn burn_in_of_the_whole_chain_leaves_the_header() {
    assert_eq!(ten_samples().to_csv(10, 1), Ok("a,b\n".to_string()));
    assert_eq!(ten_samples().to_csv(11, 1), Ok("a,b\n".to_string()));
    assert_eq!(ten_samples().to_csv(usize::MAX, 3), Ok("a,b\n".to_string()));
}

#[test]
fn zero_thinning_is_refused() {
    assert_eq!(ten_samples().to_csv(0, 0), Err(ExportError::ZeroThinning));
    assert_eq!(ten_samples().to_csv(8, 0), Err(ExportError::ZeroThinning));
    assert_eq!(ten_samples().to_csv(10, 0), Err(ExportError::ZeroThinning));
    let empty = Posterior::new(Vec::new(), Vec::new());
    assert_eq!(empty.to_csv(0, 0), Err(ExportError::ZeroThinning));
}

#[test]
fn thinning_keeps_every_kth_sample() {
    assert_eq!(ten_samples().to_csv(0, 3), Ok("a,b\n0,0\n3,1.5\n6,3\n9,4.5\n".to_string()));
    assert_eq!(ten_samples().to_csv(1, 3), Ok("a,b\n1,0.5\n4,2\n7,3.5\n".to_string()));
    assert_eq!(ten_samples().to_csv(2, 4), Ok("a,b\n2,1\n6,3\n".to_string()));
    assert_eq!(ten_samples().to_csv(0, 5), Ok("a,b\n0,0\n5,2.5\n".to_string()));
}

#[test]
fn a_stride_beyond_the_chain_keeps_the_first_sample_after_burn_in() {
    assert_eq!(ten_samples().to_csv(0, 10), Ok("a,b\n0,0\n".to_string()));
    assert_eq!(ten_samples().to_csv(4, 100), Ok("a,b\n4,2\n".to_string()));
    assert_eq!(ten_samples().to_csv(9, usize::MAX), Ok("a,b\n9,4.5\n".to_string()));
    assert_eq!(ten_samples().to_csv(0, usize::MAX), Ok("a,b\n0,0\n".to_string()));
}

#[test]
fn an_empty_chain_exports_its_header() {
    let posterior = Posterior::new(names(&["slope", "intercept", "scatter"]), Vec::new());
    assert_eq!(posterior.to_csv(0, 1), Ok("slope,intercept,scatter\n".to_string()));
}

#[test]
fn a_chain_without_names_has_an_empty_header_line() {
    let posterior = Posterior::new(Vec::new(), vec![Guess::new(&[1.0]), Guess::new(&[])]);
    assert_eq!(posterior.to_csv(0, 1), Ok("\n1\n\n".to_string()));
}

#[test]
fn a_single_name_has_no_comma() {
    let posterior = Posterior::new(names(&["only"]), vec![Guess::new(&[2.5])]);
    assert_eq!(posterior.to_csv(0, 1), Ok("only\n2.5\n".to_string()));
}

#[test]
fn rows_are_written_as_long_as_the_samples_are() {
    let chain = vec![Guess::new(&[1.0, 2.0, 3.0]), Guess::new(&[4.0])];
    let posterior = Posterior::new(names(&["a", "b"]), chain);
    assert_eq!(posterior.to_csv(0, 1), Ok("a,b\n1,2,3\n4\n".to_string()));
}

#[test]
fn a_posterior_keeps_what_it_was_given() {
    let posterior = ten_samples();
    assert_eq!(posterior.dimension(), 2);
    assert_eq!(posterior.parameter_names(), &names(&["a", "b"]));
    assert_eq!(posterior.samples().len(), 10);
    for (i, sample) in posterior.samples().iter().enumerate() {
        assert_eq!(sample.values, vec![i as f32, 0.5 * i as f32]);
    }
}
