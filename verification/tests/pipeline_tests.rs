use bootcore::input_pipeline::InputPipeline;
use bootcore::lfb_terminal::LFBTerminal;
use bootcore::scancode::ScancodeChannel;

#[test]
fn channel_preserves_fifo_order() {
    // Press and release of the same key: the bytes must come out in exactly
    // the order they were pushed.
    let mut channel = ScancodeChannel::new();
    channel.push(0x1e);
    channel.push(0x9e);
    assert_eq!(channel.pop(), Some(0x1e));
    assert_eq!(channel.pop(), Some(0x9e));
    assert_eq!(channel.pop(), None);
}

#[test]
fn channel_pop_on_empty_reports_nothing() {
    let mut channel = ScancodeChannel::new();
    assert_eq!(channel.pop(), None);
    assert_eq!(channel.len(), 0);
}

#[test]
fn pressing_a_writes_exactly_one_a() {
    // Scancode set 1: 0x1e is the press of the key decoding to 'a',
    // 0x9e its release. Exactly one 'a' reaches the surface and the
    // channel is fully drained.
    let mut pipeline = InputPipeline::new();
    let mut channel = ScancodeChannel::new();
    let mut terminal = LFBTerminal::new(0xfd00_0000, 3200, 800, 600, 32);
    channel.push(0x1e);
    channel.push(0x9e);
    let wrote = pipeline.drain(&mut channel, &mut terminal);
    assert_eq!(wrote, 1);
    assert_eq!(terminal.written, vec!['a']);
    assert_eq!(channel.len(), 0);
}

#[test]
fn malformed_bytes_are_absorbed_silently() {
    // A lone release byte and garbage must not panic and must write nothing.
    let mut pipeline = InputPipeline::new();
    let mut channel = ScancodeChannel::new();
    let mut terminal = LFBTerminal::new(0xfd00_0000, 3200, 800, 600, 32);
    channel.push(0x9e);
    channel.push(0x00);
    pipeline.drain(&mut channel, &mut terminal);
    assert_eq!(terminal.written.len(), 0);
    assert_eq!(channel.len(), 0);
    // The decoder resynchronizes: a valid press still decodes afterwards.
    channel.push(0x1e);
    let wrote = pipeline.drain(&mut channel, &mut terminal);
    assert_eq!(wrote, 1);
    assert_eq!(terminal.written, vec!['a']);
}

#[test]
fn poll_on_empty_channel_changes_nothing() {
    let mut pipeline = InputPipeline::new();
    let mut channel = ScancodeChannel::new();
    let mut terminal = LFBTerminal::new(0xfd00_0000, 3200, 800, 600, 32);
    assert_eq!(pipeline.poll_once(&mut channel, &mut terminal), None);
    assert_eq!(terminal.written.len(), 0);
}
