//! Ownership of the device's peripherals and the LED pin driven from them.
use vstd::prelude::*;

verus! {

/// The peripheral set was handed out already.
#[derive(Clone, Copy, Debug, PartialEq, Eq, Structural)]
pub enum AcquireError {
    AlreadyTaken,
}

/// A fault reported by a pin driver. The push-pull driver here reports none.
#[derive(Clone, Copy, Debug, PartialEq, Eq, Structural)]
pub enum PinError {
    Fault,
}

/// The drive mode of a pin.
#[derive(Clone, Copy, Debug, PartialEq, Eq, Structural)]
pub enum PinMode {
    /// The reset state: an analog input, neither driven nor pulled.
    Analog,
    /// Actively driven both high and low.
    PushPullOutput,
}

/// The device, which hands out its peripheral set at most once.
#[derive(Debug)]
pub struct Device {
    taken: bool,
}

/// Exclusive ownership of the device's register blocks.
#[derive(Debug)]
pub struct Peripherals {
    owned: (),
}

/// A pin in its reset state, identified by port letter and number.
#[derive(Debug, PartialEq, Eq, Structural)]
pub struct Pin {
    pub port: char,
    pub number: u8,
}

/// A pin configured as a push-pull output, with the level it drives.
#[derive(Debug, PartialEq, Eq, Structural)]
pub struct OutputPin {
    pub port: char,
    pub number: u8,
    pub high: bool,
}

/// The port letter of the board's user LED.
pub const LED_PORT: char = 'A';

/// The pin number of the board's user LED.
pub const LED_NUMBER: u8 = 5;

impl Device {
    /// The device after reset, with its peripherals not yet taken.
    pub fn new() -> (r: Device)
        ensures
            !r.is_taken(),
    {
        Device { taken: false }
    }

    /// Whether the peripheral set was handed out.
    pub closed spec fn is_taken(&self) -> bool {
        self.taken
    }

    /// Whether `take` hands out the peripheral set.
    pub closed spec fn take_granted(self) -> bool {
        !self.taken
    }

    /// The device after a `take`.
    pub closed spec fn after_take(self) -> Device {
        Device { taken: true }
    }

    /// Whether the peripheral set was handed out.
    pub fn taken(&self) -> (r: bool)
        ensures
            r == self.is_taken(),
    {
        self.taken
    }

    /// The peripheral set: handed out on the first call, refused as already
    /// taken on every later one.
    pub fn take(&mut self) -> (r: Result<Peripherals, AcquireError>)
        ensures
            *final(self) == old(self).after_take(),
            final(self).is_taken(),
            r is Ok <==> old(self).take_granted(),
            old(self).take_granted() <==> !old(self).is_taken(),
            r is Err ==> r->Err_0 == AcquireError::AlreadyTaken,
    {
        if self.taken {
            Err(AcquireError::AlreadyTaken)
        } else {
            self.taken = true;
            Ok(Peripherals { owned: () })
        }
    }
}

impl Peripherals {
    /// The LED pin, in its reset state. Taking it consumes the peripheral set,
    /// so the pin has a single owner.
    pub fn into_led(self) -> (r: Pin)
        ensures
            r.port == LED_PORT,
            r.number == LED_NUMBER,
    {
        Pin { port: LED_PORT, number: LED_NUMBER }
    }
}

impl Pin {
    /// The same pin configured as a push-pull output, driving low.
    pub fn into_push_pull_output(self) -> (r: OutputPin)
        ensures
            r.port == self.port,
            r.number == self.number,
            !r.high,
    {
        OutputPin { port: self.port, number: self.number, high: false }
    }

    /// The drive mode of a pin in its reset state.
    pub fn mode(&self) -> (r: PinMode)
        ensures
            r == PinMode::Analog,
    {
        PinMode::Analog
    }
}

impl OutputPin {
    /// The drive mode of an output pin.
    pub fn mode(&self) -> (r: PinMode)
        ensures
            r == PinMode::PushPullOutput,
    {
        PinMode::PushPullOutput
    }

    /// Drives the pin low.
    pub fn set_low(&mut self) -> (r: Result<(), PinError>)
        ensures
            r is Ok,
            !final(self).high,
            final(self).port == old(self).port,
            final(self).number == old(self).number,
    {
        self.high = false;
        Ok(())
    }

    /// Drives the pin high.
    pub fn set_high(&mut self) -> (r: Result<(), PinError>)
        ensures
            r is Ok,
            final(self).high,
            final(self).port == old(self).port,
            final(self).number == old(self).number,
    {
        self.high = true;
        Ok(())
    }

    /// Whether the pin drives high.
    pub fn is_set_high(&self) -> (r: bool)
        ensures
            r == self.high,
    {
        self.high
    }

    /// Makes `n` alternations, low then high, each one reporting success: the
    /// pin ends low after an odd count, high after an even count of at
    /// least one, and unchanged after none.
    pub fn alternate(&mut self, n: u64) -> (r: Result<(), PinError>)
        ensures
            r is Ok,
            n > 0 ==> final(self).high == (n % 2 == 0),
            n == 0 ==> final(self).high == old(self).high,
            final(self).port == old(self).port,
            final(self).number == old(self).number,
    {
        let mut i: u64 = 0;
        while i < n
            invariant
                i <= n,
                i > 0 ==> self.high == (i % 2 == 0),
                i == 0 ==> self.high == old(self).high,
                self.port == old(self).port,
                self.number == old(self).number,
            decreases n - i,
        {
            let step = if i % 2 == 0 {
                self.set_low()
            } else {
                self.set_high()
            };
            match step {
                Ok(()) => {},
                Err(e) => {
                    return Err(e);
                },
            }
            i = i + 1;
        }
        Ok(())
    }
}

/// Acquiring the peripheral set succeeds on a fresh device, and a second
/// attempt on the same device fails as already taken.
pub proof fn lemma_take_once(d: Device)
    requires
        !d.is_taken(),
    ensures
        d.take_granted(),
        d.after_take().is_taken(),
        !d.after_take().take_granted(),
        d.after_take().after_take() == d.after_take(),
{
}

} // verus!
