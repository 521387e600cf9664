use ariel_os_mpu::i2c::{
    from_error, AcknowledgeCheckFailedReason, BusError, Config, Error, Frequency,
    NoAcknowledgeSource,
};

#[test]
fn frequency_walk() {
    assert_eq!(Frequency::first(), Frequency::_100k);
    assert_eq!(Frequency::last(), Frequency::_400k);
    assert_eq!(Frequency::_100k.next(), Some(Frequency::_400k));
    assert_eq!(Frequency::_400k.next(), None);
    assert_eq!(Frequency::_400k.prev(), Some(Frequency::_100k));
    assert_eq!(Frequency::_100k.prev(), None);
}

#[test]
fn frequency_values() {
    assert_eq!(Frequency::_100k.khz(), 100);
    assert_eq!(Frequency::_400k.khz(), 400);
    assert_eq!(Frequency::_100k.hz(), 100_000);
    assert_eq!(Frequency::_400k.hz(), 400_000);
}

#[test]
fn default_config_is_standard_mode() {
    assert_eq!(Config::default().frequency, Frequency::_100k);
}

#[test]
fn bus_errors_map() {
    assert_eq!(from_error(BusError::FifoExceeded), Error::Overrun);
    assert_eq!(
        from_error(BusError::AcknowledgeCheckFailed(AcknowledgeCheckFailedReason::Address)),
        Error::NoAcknowledge(NoAcknowledgeSource::Address)
    );
    assert_eq!(
        from_error(BusError::AcknowledgeCheckFailed(AcknowledgeCheckFailedReason::Data)),
        Error::NoAcknowledge(NoAcknowledgeSource::Data)
    );
    assert_eq!(
        from_error(BusError::AcknowledgeCheckFailed(AcknowledgeCheckFailedReason::Unknown)),
        Error::NoAcknowledge(NoAcknowledgeSource::Unknown)
    );
    assert_eq!(from_error(BusError::Timeout), Error::Timeout);
    assert_eq!(from_error(BusError::ArbitrationLost), Error::ArbitrationLoss);
    assert_eq!(from_error(BusError::ExecutionIncomplete), Error::Other);
    assert_eq!(from_error(BusError::CommandNumberExceeded), Error::Other);
    assert_eq!(from_error(BusError::ZeroLengthInvalid), Error::Other);
    assert_eq!(from_error(BusError::Other), Error::Other);
}
