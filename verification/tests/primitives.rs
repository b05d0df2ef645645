use netbits::Bit;
use netbits::BitPrimitive;
use netbits::BitPrimitiveError;
use netbits::Crumb;
use netbits::Nibble;
use netbits::U12;
use netbits::U3;

#[test]
fn bit() {
    assert_eq!(Bit::MIN_VALUE, 0);
    assert_eq!(Bit::MAX_VALUE, 1);
    assert_eq!(Bit::BIT_WIDTH, 1);

    assert_eq!(Bit::default(), Bit::from_raw(0));

    assert_eq!(Bit::try_from(0), Ok(Bit::from_raw(0)));
    assert_eq!(Bit::try_from(1), Ok(Bit::from_raw(1)));
    assert_eq!(
        Bit::try_from(Bit::MAX_VALUE + 1),
        Err(BitPrimitiveError::ValueOutOfRange)
    );

    let mut primitive = Bit::try_from(0).unwrap();
    assert_eq!(primitive.value(), 0);
    primitive.set(1).unwrap();
    assert_eq!(primitive.value(), 1);
    assert_eq!(
        primitive.set(Bit::MAX_VALUE + 1),
        Err(BitPrimitiveError::ValueOutOfRange)
    );
    assert_ne!(primitive.value(), Bit::MAX_VALUE + 1);

    let primitive = Bit::from_raw(0);
    assert!(primitive.is_valid());
    let primitive = Bit::from_raw(Bit::MAX_VALUE + 1);
    assert!(!primitive.is_valid());
}

#[test]
fn crumb() {
    assert_eq!(Crumb::MIN_VALUE, 0);
    assert_eq!(Crumb::MAX_VALUE, 3);
    assert_eq!(Crumb::BIT_WIDTH, 2);

    assert_eq!(Crumb::default(), Crumb::from_raw(0));

    assert_eq!(Crumb::try_from(0b00), Ok(Crumb::from_raw(0)));
    assert_eq!(Crumb::try_from(0b01), Ok(Crumb::from_raw(1)));
    assert_eq!(Crumb::try_from(0b10), Ok(Crumb::from_raw(2)));
    assert_eq!(Crumb::try_from(0b11), Ok(Crumb::from_raw(3)));

    assert_eq!(
        Crumb::try_from(Crumb::MAX_VALUE + 1),
        Err(BitPrimitiveError::ValueOutOfRange)
    );

    let mut primitive = Crumb::try_from(0).unwrap();
    assert_eq!(primitive.value(), 0);
    primitive.set(1).unwrap();
    assert_eq!(primitive.value(), 1);
    assert_eq!(
        primitive.set(Crumb::MAX_VALUE + 1),
        Err(BitPrimitiveError::ValueOutOfRange)
    );
    assert_ne!(primitive.value(), Crumb::MAX_VALUE + 1);

    let primitive = Crumb::from_raw(0);
    assert!(primitive.is_valid());
    let primitive = Crumb::from_raw(Crumb::MAX_VALUE + 1);
    assert!(!primitive.is_valid());
}

#[test]
fn u3() {
    assert_eq!(U3::MIN_VALUE, 0);
    assert_eq!(U3::MAX_VALUE, 7);
    assert_eq!(U3::BIT_WIDTH, 3);

    assert_eq!(U3::default(), U3::from_raw(0));

    assert_eq!(U3::try_from(0b000), Ok(U3::from_raw(0)));
    assert_eq!(U3::try_from(0b001), Ok(U3::from_raw(1)));
    assert_eq!(U3::try_from(0b010), Ok(U3::from_raw(2)));
    assert_eq!(U3::try_from(0b011), Ok(U3::from_raw(3)));
    assert_eq!(U3::try_from(0b100), Ok(U3::from_raw(4)));
    assert_eq!(U3::try_from(0b101), Ok(U3::from_raw(5)));
    assert_eq!(U3::try_from(0b110), Ok(U3::from_raw(6)));
    assert_eq!(U3::try_from(0b111), Ok(U3::from_raw(7)));

    assert_eq!(
        U3::try_from(U3::MAX_VALUE + 1),
        Err(BitPrimitiveError::ValueOutOfRange)
    );

    let mut primitive = U3::try_from(0).unwrap();
    assert_eq!(primitive.value(), 0);
    primitive.set(1).unwrap();
    assert_eq!(primitive.value(), 1);
    assert_eq!(
        primitive.set(U3::MAX_VALUE + 1),
        Err(BitPrimitiveError::ValueOutOfRange)
    );
    assert_ne!(primitive.value(), U3::MAX_VALUE + 1);

    let primitive = U3::from_raw(0);
    assert!(primitive.is_valid());
    let primitive = U3::from_raw(U3::MAX_VALUE + 1);
    assert!(!primitive.is_valid());
}

#[test]
fn nibble() {
    assert_eq!(Nibble::MIN_VALUE, 0);
    assert_eq!(Nibble::MAX_VALUE, 15);
    assert_eq!(Nibble::BIT_WIDTH, 4);

    assert_eq!(Nibble::default(), Nibble::from_raw(0));

    assert_eq!(Nibble::try_from(0b0000), Ok(Nibble::from_raw(0)));
    assert_eq!(Nibble::try_from(0b0001), Ok(Nibble::from_raw(1)));
    assert_eq!(Nibble::try_from(0b0010), Ok(Nibble::from_raw(2)));
    assert_eq!(Nibble::try_from(0b0011), Ok(Nibble::from_raw(3)));
    assert_eq!(Nibble::try_from(0b0100), Ok(Nibble::from_raw(4)));
    assert_eq!(Nibble::try_from(0b0101), Ok(Nibble::from_raw(5)));
    assert_eq!(Nibble::try_from(0b0110), Ok(Nibble::from_raw(6)));
    assert_eq!(Nibble::try_from(0b0111), Ok(Nibble::from_raw(7)));
    assert_eq!(Nibble::try_from(0b1000), Ok(Nibble::from_raw(8)));
    assert_eq!(Nibble::try_from(0b1001), Ok(Nibble::from_raw(9)));
    assert_eq!(Nibble::try_from(0b1010), Ok(Nibble::from_raw(10)));
    assert_eq!(Nibble::try_from(0b1011), Ok(Nibble::from_raw(11)));
    assert_eq!(Nibble::try_from(0b1100), Ok(Nibble::from_raw(12)));
    assert_eq!(Nibble::try_from(0b1101), Ok(Nibble::from_raw(13)));
    assert_eq!(Nibble::try_from(0b1110), Ok(Nibble::from_raw(14)));
    assert_eq!(Nibble::try_from(0b1111), Ok(Nibble::from_raw(15)));

    assert_eq!(
        Nibble::try_from(Nibble::MAX_VALUE + 1),
        Err(BitPrimitiveError::ValueOutOfRange)
    );

    let mut primitive = Nibble::try_from(0).unwrap();
    assert_eq!(primitive.value(), 0);
    primitive.set(1).unwrap();
    assert_eq!(primitive.value(), 1);
    assert_eq!(
        primitive.set(Nibble::MAX_VALUE + 1),
        Err(BitPrimitiveError::ValueOutOfRange)
    );
    assert_ne!(primitive.value(), Nibble::MAX_VALUE + 1);

    let primitive = Nibble::from_raw(0);
    assert!(primitive.is_valid());
    let primitive = Nibble::from_raw(Nibble::MAX_VALUE + 1);
    assert!(!primitive.is_valid());
}

#[test]
fn u12() {
    assert_eq!(U12::MIN_VALUE, 0);
    assert_eq!(U12::MAX_VALUE, 4095);
    assert_eq!(U12::BIT_WIDTH, 12);

    assert_eq!(U12::default(), U12::from_raw(0));

    assert_eq!(U12::try_from(0b0000), Ok(U12::from_raw(0)));
    assert_eq!(U12::try_from(0b0001), Ok(U12::from_raw(1)));
    assert_eq!(U12::try_from(0b0010), Ok(U12::from_raw(2)));
    assert_eq!(U12::try_from(0b0011), Ok(U12::from_raw(3)));
    assert_eq!(U12::try_from(0b0100), Ok(U12::from_raw(4)));
    assert_eq!(U12::try_from(0b0101), Ok(U12::from_raw(5)));
    assert_eq!(U12::try_from(0b0110), Ok(U12::from_raw(6)));
    assert_eq!(U12::try_from(0b0111), Ok(U12::from_raw(7)));
    assert_eq!(U12::try_from(0b1000), Ok(U12::from_raw(8)));
    assert_eq!(U12::try_from(0b1001), Ok(U12::from_raw(9)));
    assert_eq!(U12::try_from(0b1010), Ok(U12::from_raw(10)));
    assert_eq!(U12::try_from(0b1011), Ok(U12::from_raw(11)));
    assert_eq!(U12::try_from(0b1100), Ok(U12::from_raw(12)));
    assert_eq!(U12::try_from(0b1101), Ok(U12::from_raw(13)));
    assert_eq!(U12::try_from(0b1110), Ok(U12::from_raw(14)));
    assert_eq!(U12::try_from(0b1111), Ok(U12::from_raw(15)));

    assert_eq!(
        U12::try_from(U12::MAX_VALUE + 1),
        Err(BitPrimitiveError::ValueOutOfRange)
    );

    let mut primitive = U12::try_from(0).unwrap();
    assert_eq!(primitive.value(), 0);
    primitive.set(1).unwrap();
    assert_eq!(primitive.value(), 1);
    assert_eq!(
        primitive.set(U12::MAX_VALUE + 1),
        Err(BitPrimitiveError::ValueOutOfRange)
    );
    assert_ne!(primitive.value(), U12::MAX_VALUE + 1);

    let primitive = U12::from_raw(0);
    assert!(primitive.is_valid());
    let primitive = U12::from_raw(U12::MAX_VALUE + 1);
    assert!(!primitive.is_valid());
}

#[test]
fn try_from_boundaries() {
    assert_eq!(Bit::try_from(Bit::MAX_VALUE), Ok(Bit::from_raw(1)));
    assert_eq!(Crumb::try_from(Crumb::MAX_VALUE), Ok(Crumb::from_raw(3)));
    assert_eq!(U3::try_from(U3::MAX_VALUE), Ok(U3::from_raw(7)));
    assert_eq!(Nibble::try_from(Nibble::MAX_VALUE), Ok(Nibble::from_raw(15)));
    assert_eq!(U12::try_from(U12::MAX_VALUE), Ok(U12::from_raw(4095)));
    assert_eq!(U12::try_from(65535), Err(BitPrimitiveError::ValueOutOfRange));
}

#[test]
fn set_keeps_value_on_failure() {
    let mut p = U12::try_from(1234).unwrap();
    assert_eq!(p.set(4096), Err(BitPrimitiveError::ValueOutOfRange));
    assert_eq!(p.value(), 1234);
    assert_eq!(p.set(4095), Ok(()));
    assert_eq!(p.value(), 4095);
}
