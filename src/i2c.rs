use vstd::prelude::*;

verus! {

/// Device-control request code that sets the slave address of an I2C handle.
pub const I2C_SLAVE: u64 = 0x0703;

/// Control byte that marks a transfer as pixel/data content.
pub const DATA_PREFIX: u8 = 0x40;

/// Control byte that marks a transfer as a command.
pub const COMMAND_PREFIX: u8 = 0x00;

/// The bytes of one data transfer: the data prefix, then the payload in order.
pub open spec fn data_frame(data: Seq<u8>) -> Seq<u8> {
    seq![DATA_PREFIX].add(data)
}

/// The bytes of one command transfer: the command prefix, then the command.
pub open spec fn command_frame(command: u8) -> Seq<u8> {
    seq![COMMAND_PREFIX, command]
}

/// Why a connection could not be made or used.
#[derive(Debug)]
pub enum I2cError {
    /// The device node could not be opened, or a transfer failed, at the
    /// operating-system boundary; the text is the system's description.
    Io(String),
    /// The driver refused to bind the slave address to the opened handle.
    BusBind,
}

/// The device-control call that binds a slave address: its request code and
/// its argument.
#[derive(Debug, Clone, Copy, PartialEq, Eq)]
pub struct BindRequest {
    pub request: u64,
    pub argument: u64,
}

/// What a connection is: the slave address bound at construction, and every
/// transfer framed on it so far, in call order.
pub struct I2cView {
    pub slave_adress: u8,
    pub transfers: Seq<Seq<u8>>,
}

impl I2cView {
    /// The connection after one data transfer of `data`.
    pub open spec fn after_data(self, data: Seq<u8>) -> I2cView {
        I2cView { slave_adress: self.slave_adress, transfers: self.transfers.push(data_frame(data)) }
    }

    /// The connection after one command transfer of `command`.
    pub open spec fn after_command(self, command: u8) -> I2cView {
        I2cView {
            slave_adress: self.slave_adress,
            transfers: self.transfers.push(command_frame(command)),
        }
    }
}

/// Two writes stay two transfers, in call order: a command write followed by
/// a data write adds exactly the command frame and then the data frame after
/// the transfers made before, merging neither with the other, and leaves the
/// bound slave address as it was.
pub proof fn lemma_writes_kept_apart_in_order(v: I2cView, command: u8, data: Seq<u8>)
    ensures
        v.after_command(command).after_data(data).transfers == v.transfers + seq![
            command_frame(command),
            data_frame(data),
        ],
        v.after_command(command).after_data(data).slave_adress == v.slave_adress,
{
    assert(v.after_command(command).after_data(data).transfers =~= v.transfers + seq![
        command_frame(command),
        data_frame(data),
    ]);
}

/// A connection to one slave on an I2C bus handle.
///
/// The slave address is bound once, when the connection is made, and never
/// changes. Each write frames its bytes into one transfer, which the caller
/// sends to the handle as a single write.
pub struct I2c {
    slave_adress: u8,
    transfers: Ghost<Seq<Seq<u8>>>,
}

impl View for I2c {
    type V = I2cView;

    closed spec fn view(&self) -> I2cView {
        I2cView { slave_adress: self.slave_adress, transfers: self.transfers@ }
    }
}

impl I2c {
    /// The device-control call that binds `slave_adress` to an opened handle.
    pub fn bind_request(slave_adress: u8) -> (r: BindRequest)
        ensures
            r.request == I2C_SLAVE,
            r.argument == slave_adress as u64,
    {
        BindRequest { request: I2C_SLAVE, argument: slave_adress as u64 }
    }

    /// Makes the connection once the bind call has returned `bind_status`:
    /// a negative status means the driver refused the address.
    pub fn new(slave_adress: u8, bind_status: i32) -> (r: Result<I2c, I2cError>)
        ensures
            bind_status < 0 <==> r is Err,
            r is Err ==> r->Err_0 is BusBind,
            r is Ok ==> r->Ok_0@ == (I2cView { slave_adress, transfers: seq![] }),
    {
        if bind_status < 0 {
            return Err(I2cError::BusBind);
        }
        Ok(I2c { slave_adress, transfers: Ghost(Seq::empty()) })
    }

    /// The slave address this connection is bound to.
    pub fn slave_adress(&self) -> (r: u8)
        ensures
            r == self@.slave_adress,
    {
        self.slave_adress
    }

    /// Frames `data` as one data transfer: the data prefix, then `data`.
    pub fn write_data(&mut self, data: &[u8]) -> (r: Vec<u8>)
        ensures
            r@ == data_frame(data@),
            final(self)@ == old(self)@.after_data(data@),
    {
        let mut buffer: Vec<u8> = vec![DATA_PREFIX];
        buffer.extend_from_slice(data);
        assert(buffer@ =~= data_frame(data@));
        self.write(buffer)
    }

    /// Frames `command` as one command transfer: the command prefix, then
    /// `command`.
    pub fn write_command(&mut self, command: u8) -> (r: Vec<u8>)
        ensures
            r@ == command_frame(command),
            final(self)@ == old(self)@.after_command(command),
    {
        self.write(vec![COMMAND_PREFIX, command])
    }

    /// Records `frame` as the next transfer and hands it back, unchanged, to
    /// be sent as one write.
    fn write(&mut self, frame: Vec<u8>) -> (r: Vec<u8>)
        ensures
            r@ == frame@,
            final(self)@.slave_adress == old(self)@.slave_adress,
            final(self)@.transfers == old(self)@.transfers.push(frame@),
    {
        self.transfers = Ghost(self.transfers@.push(frame@));
        frame
    }
}

} // verus!
