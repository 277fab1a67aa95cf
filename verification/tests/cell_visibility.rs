use xosa_controller::control::Velocity;
use xosa_controller::write_once;

#[test]
fn write_then_read_returns_the_written_value() {
    let (reader, mut writer) = write_once::new(7i64);
    assert_eq!(reader.read(), 7);
    writer.write(42);
    assert_eq!(reader.read(), 42);
    // the write handle observes its own write too
    assert_eq!(writer.read(), 42);
    writer.write(-3);
    assert_eq!(reader.read(), -3);
}

#[test]
fn multi_field_values_are_seen_whole() {
    let (reader, mut writer) = write_once::new(Velocity { linear: 1, angular: 2 });
    let second_reader = reader.clone();
    writer.write(Velocity { linear: 30, angular: 40 });
    // both handles see the whole new value, never a mixture
    assert_eq!(reader.read(), Velocity { linear: 30, angular: 40 });
    assert_eq!(second_reader.read(), Velocity { linear: 30, angular: 40 });
    writer.write(Velocity { linear: -5, angular: 5 });
    assert_eq!(reader.read(), Velocity { linear: -5, angular: 5 });
    assert_eq!(second_reader.read(), Velocity { linear: -5, angular: 5 });
}

#[test]
fn cloned_readers_share_the_cell() {
    let (reader, mut writer) = write_once::new(0i64);
    let clones: Vec<_> = (0..4).map(|_| reader.clone()).collect();
    writer.write(99);
    for handle in &clones {
        assert_eq!(handle.read(), 99);
    }
}
