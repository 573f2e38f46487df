use lox_vm::{Chunk, TooManyConstants, Value};

#[test]
fn new_chunk_is_empty() {
    let c = Chunk::new();
    assert_eq!(c.code.len(), 0);
    assert_eq!(c.lines.len(), 0);
    assert_eq!(c.constants.len(), 0);
    let d = Chunk::default();
    assert_eq!(d.code.len(), 0);
    assert_eq!(d.lines.len(), 0);
    assert_eq!(d.constants.len(), 0);
}

#[test]
fn write_appends_byte_and_line_in_step() {
    let mut c = Chunk::new();
    c.write(2, 1);
    c.write(0, 1);
    c.write(7, 3);
    assert_eq!(c.code, vec![2, 0, 7]);
    assert_eq!(c.lines, vec![1, 1, 3]);
}

#[test]
fn code_and_lines_stay_the_same_length_over_any_write_sequence() {
    let mut c = Chunk::new();
    for i in 0..300usize {
        c.write((i % 7) as u8, i + 1);
        assert_eq!(c.code.len(), c.lines.len());
    }
    assert_eq!(c.len(), 300);
}

#[test]
fn add_constant_assigns_indices_in_insertion_order_from_zero() {
    let mut c = Chunk::new();
    let v0 = Value((1.2f64).to_bits());
    let v1 = Value((3.4f64).to_bits());
    let v2 = Value((5.6f64).to_bits());
    assert_eq!(c.add_constant(v0), Ok(0));
    assert_eq!(c.add_constant(v1), Ok(1));
    assert_eq!(c.add_constant(v2), Ok(2));
    assert_eq!(c.constants[0], v0);
    assert_eq!(c.constants[1], v1);
    assert_eq!(c.constants[2], v2);
}

#[test]
fn add_constant_refuses_a_257th_value() {
    let mut c = Chunk::new();
    for i in 0..256u64 {
        assert_eq!(c.add_constant(Value(i)), Ok(i as u8));
    }
    assert_eq!(c.add_constant(Value(999)), Err(TooManyConstants));
    assert_eq!(c.constants.len(), 256);
}
