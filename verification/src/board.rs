use vstd::prelude::*;

verus! {

/// Clock phase of an SPI bus.
#[derive(Clone, Copy, Debug, PartialEq, Eq, Structural)]
pub enum ClockPhase {
    /// Data is sampled on the first clock edge.
    CaptureOnFirstTransition,
    /// Data is sampled on the second clock edge.
    CaptureOnSecondTransition,
}

/// Idle level of an SPI clock line.
#[derive(Clone, Copy, Debug, PartialEq, Eq, Structural)]
pub enum ClockPolarity {
    /// The clock rests low.
    IdleLow,
    /// The clock rests high.
    IdleHigh,
}

/// The settings of an SPI bus that the Ethernet controllers are driven with.
#[derive(Clone, Copy, Debug, PartialEq, Eq, Structural)]
pub struct SpiSettings {
    /// Bus clock in hertz.
    pub frequency: u32,
    pub phase: ClockPhase,
    pub polarity: ClockPolarity,
}

/// The number of the SPI mode (0 to 3) that a phase and a polarity make up:
/// the polarity gives the high bit, the phase the low bit.
pub open spec fn spi_mode(settings: SpiSettings) -> nat {
    let cpol: nat = if settings.polarity == ClockPolarity::IdleHigh { 1 } else { 0 };
    let cpha: nat = if settings.phase == ClockPhase::CaptureOnSecondTransition { 1 } else { 0 };
    2 * cpol + cpha
}

/// Bus clock for the W5500 controllers: 50 MHz.
pub const W5500_SPI_FREQUENCY: u32 = 50_000_000;

/// SPI settings for a W5500 controller: 50 MHz, clock idle high, data
/// captured on the second edge (SPI mode 3). Used both for the bus and for
/// the device on it.
pub fn w5500_spi_config() -> (settings: SpiSettings)
    ensures
        settings.frequency == W5500_SPI_FREQUENCY,
        settings.phase == ClockPhase::CaptureOnSecondTransition,
        settings.polarity == ClockPolarity::IdleHigh,
{
    SpiSettings {
        frequency: W5500_SPI_FREQUENCY,
        phase: ClockPhase::CaptureOnSecondTransition,
        polarity: ClockPolarity::IdleHigh,
    }
}

/// The W5500 controllers run in SPI mode 3, one of the two modes the chip
/// supports (0 and 3).
pub proof fn w5500_spi_mode_is_3()
    ensures
        spi_mode(SpiSettings {
            frequency: W5500_SPI_FREQUENCY,
            phase: ClockPhase::CaptureOnSecondTransition,
            polarity: ClockPolarity::IdleHigh,
        }) == 3,
{
}

/// One of the two Ethernet interfaces of the board.
#[derive(Clone, Copy, Debug, PartialEq, Eq, Structural)]
pub enum EthernetPort {
    /// SPI0 controller: the interface the listening sockets run on.
    First,
    /// SPI1 controller: the interface the repeating socket runs on.
    Second,
}

/// The last byte of the hardware address of an interface.
pub open spec fn port_number(port: EthernetPort) -> u8 {
    match port {
        EthernetPort::First => 1,
        EthernetPort::Second => 2,
    }
}

/// The hardware address of an interface: `02:00:00:00:55:0n` where `n` is
/// the interface's number.
pub open spec fn spec_mac_address(port: EthernetPort) -> Seq<u8> {
    seq![0x02u8, 0x00u8, 0x00u8, 0x00u8, 0x55u8, port_number(port)]
}

/// The hardware address that the W5500 of an interface is given.
pub fn mac_address(port: EthernetPort) -> (mac: [u8; 6])
    ensures
        mac@ == spec_mac_address(port),
{
    let last: u8 = match port {
        EthernetPort::First => 1,
        EthernetPort::Second => 2,
    };
    let mac: [u8; 6] = [0x02, 0x00, 0x00, 0x00, 0x55, last];
    assert(mac@ =~= spec_mac_address(port));
    mac
}

/// Every interface's hardware address is a locally administered unicast
/// address: in its first byte the locally-administered bit is set and the
/// group bit is clear.
pub proof fn mac_address_is_local_unicast(port: EthernetPort)
    ensures
        spec_mac_address(port).len() == 6,
        spec_mac_address(port)[0] & 0x02u8 == 0x02u8,
        spec_mac_address(port)[0] & 0x01u8 == 0x00u8,
{
    assert(0x02u8 & 0x02u8 == 0x02u8 && 0x02u8 & 0x01u8 == 0x00u8) by (bit_vector);
}

/// The two interfaces never share a hardware address.
pub proof fn mac_addresses_are_distinct(a: EthernetPort, b: EthernetPort)
    requires
        a != b,
    ensures
        spec_mac_address(a) != spec_mac_address(b),
{
    assert(spec_mac_address(a)[5] != spec_mac_address(b)[5]);
}

} // verus!

verus! {

/// TCP port that both the listening sockets and the repeating socket use.
pub const TCP_PORT: u16 = 1234;

/// Size of each socket's receive buffer, transmit buffer and read buffer.
pub const SOCKET_BUFFER_LEN: usize = 4096;

/// Inactivity timeout of every socket, in seconds.
pub const SOCKET_TIMEOUT_SECS: u64 = 10;

} // verus!
