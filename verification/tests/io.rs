use nb::io::read::{Read, SliceReader};
use nb::io::write::{SliceWriter, Write};

#[test]
fn reader_fills_the_buffer_and_advances() {
    let mut r = SliceReader::new(vec![1, 2, 3]);
    let mut buf = vec![0, 0];
    assert_eq!(r.read(&mut buf), Ok(2));
    assert_eq!(buf, vec![1, 2]);
    assert_eq!(r.pos, 2);
    assert_eq!(r.read(&mut buf), Ok(1));
    assert_eq!(buf, vec![3, 2]);
}

#[test]
fn reader_reports_zero_once_the_data_is_exhausted() {
    let mut r = SliceReader::new(vec![1]);
    let mut buf = vec![0, 0];
    assert_eq!(r.read(&mut buf), Ok(1));
    assert_eq!(r.read(&mut buf), Ok(0));
}

#[test]
fn reader_accepts_an_empty_buffer() {
    let mut r = SliceReader::new(vec![1, 2]);
    let mut buf: Vec<u8> = vec![];
    assert_eq!(r.read(&mut buf), Ok(0));
    assert_eq!(r.pos, 0);
}

fn read_once<R: Read>(mut r: R, buf: &mut Vec<u8>) -> Result<usize, nb::Error<R::Error>> {
    r.read(buf)
}

fn write_once<W: Write>(mut w: W, buf: &[u8]) -> Result<usize, nb::Error<W::Error>> {
    w.write(buf)
}

#[test]
fn a_mutable_reference_is_itself_a_reader() {
    let mut r = SliceReader::new(vec![4, 5]);
    let mut buf = vec![0];
    assert_eq!(read_once(&mut r, &mut buf), Ok(1));
    assert_eq!(buf, vec![4]);
    assert_eq!(r.pos, 1);
}

#[test]
fn a_mutable_reference_is_itself_a_writer() {
    let mut w = SliceWriter::new(vec![0, 0]);
    assert_eq!(write_once(&mut w, &[6]), Ok(1));
    assert_eq!(w.dest, vec![6, 0]);
    assert_eq!(w.pos, 1);
}

#[test]
fn writer_fills_the_destination_and_advances() {
    let mut w = SliceWriter::new(vec![0, 0, 0]);
    assert_eq!(w.write(&[9, 8]), Ok(2));
    assert_eq!(w.dest, vec![9, 8, 0]);
    assert_eq!(w.pos, 2);
    assert_eq!(w.write(&[7, 6]), Ok(1));
    assert_eq!(w.dest, vec![9, 8, 7]);
}

#[test]
fn writer_reports_zero_once_the_destination_is_full() {
    let mut w = SliceWriter::new(vec![0]);
    assert_eq!(w.write(&[1, 2]), Ok(1));
    assert_eq!(w.write(&[3]), Ok(0));
    assert_eq!(w.dest, vec![1]);
}

#[test]
fn writer_flush_and_close_succeed_immediately() {
    let mut w = SliceWriter::new(vec![0, 0]);
    assert_eq!(w.flush(), Ok(()));
    assert_eq!(w.close(), Ok(()));
    assert_eq!(w.pos, 0);
}
