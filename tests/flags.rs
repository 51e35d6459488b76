use libmagic_rs::cookie::Flags;
use libmagic_rs::magic;

#[test]
fn flags_round_trip_through_bits() {
    let named = [
        Flags::debug(),
        Flags::symlink(),
        Flags::compress(),
        Flags::devices(),
        Flags::mime_type(),
        Flags::continue_matching(),
        Flags::check(),
        Flags::preserve_atime(),
        Flags::raw(),
        Flags::error(),
        Flags::mime_encoding(),
        Flags::mime(),
        Flags::apple(),
        Flags::extension(),
        Flags::nodesc(),
        Flags::no_check_compress(),
        Flags::no_check_tar(),
        Flags::no_check_soft(),
        Flags::no_check_apptype(),
        Flags::no_check_elf(),
        Flags::no_check_text(),
        Flags::no_check_cdf(),
        Flags::no_check_csv(),
        Flags::no_check_tokens(),
        Flags::no_check_encoding(),
        Flags::no_check_json(),
        Flags::no_check_builtin(),
    ];
    let mut combined = Flags::empty();
    for f in named.iter() {
        assert_eq!(Flags::from_bits(f.bits()), Some(*f));
        assert_eq!(Flags::from_bits_retain(f.bits()), *f);
        combined = combined.union(*f);
        assert_eq!(Flags::from_bits_retain(combined.bits()), combined);
    }
    let pair = Flags::debug().union(Flags::error());
    assert_eq!(pair.bits(), 0x201);
    assert_eq!(Flags::from_bits(0x201), Some(pair));
}

#[test]
fn flags_named_values() {
    assert_eq!(Flags::debug().bits(), 0x1);
    assert_eq!(Flags::preserve_atime().bits(), 0x80);
    assert_eq!(Flags::error().bits(), 0x200);
    assert_eq!(Flags::extension().bits(), 0x100_0000);
    assert_eq!(Flags::no_check_json().bits(), 0x40_0000);
    assert_eq!(Flags::empty().bits(), 0);
    assert_eq!(Flags::all().bits(), u32::MAX);
}

#[test]
fn flags_composites_are_unions() {
    assert_eq!(Flags::mime(), Flags::mime_type().union(Flags::mime_encoding()));
    assert_eq!(Flags::mime().bits(), magic::MAGIC_MIME);
    assert_eq!(
        Flags::nodesc(),
        Flags::extension().union(Flags::mime()).union(Flags::apple())
    );
    let builtin = Flags::no_check_builtin();
    assert!(builtin.contains(Flags::no_check_tar()));
    assert!(builtin.contains(Flags::no_check_json()));
    assert!(!builtin.contains(Flags::no_check_soft()));
    assert_eq!(builtin.bits(), 0x7fb000);
}

#[test]
fn flags_set_operations() {
    let a = Flags::debug().union(Flags::symlink());
    let b = Flags::symlink().union(Flags::raw());
    assert_eq!(a.intersection(b), Flags::symlink());
    assert_eq!(a.difference(b), Flags::debug());
    assert_eq!(a.symmetric_difference(b), Flags::debug().union(Flags::raw()));
    assert!(a.contains(Flags::debug()));
    assert!(!a.contains(b));
    assert!(a.intersects(b));
    assert!(!Flags::debug().intersects(Flags::raw()));
    assert!(Flags::empty().is_empty());
    assert!(!a.is_empty());
    assert_eq!(Flags::empty().complement(), Flags::all());
    let mut c = Flags::empty();
    c.insert(Flags::error());
    c.insert(Flags::mime());
    assert_eq!(c.bits(), 0x610);
    c.remove(Flags::mime_type());
    assert_eq!(c, Flags::error().union(Flags::mime_encoding()));
}
