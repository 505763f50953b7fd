use vstd::prelude::*;
use vstd::string::*;
use crate::text::{decimal, digits_of};

verus! {

/// The texts held by a list of strings.
pub open spec fn texts(v: Seq<String>) -> Seq<Seq<char>> {
    v.map_values(|s: String| s@)
}

pub struct CPU {
    pub name: String,
}

impl CPU {
    /// Reports the processor starting.
    pub fn start(&self) -> (r: String)
        ensures
            r@ == "CPU "@ + self.name@ + " started"@,
    {
        let mut s = String::from_str("CPU ");
        s.append(self.name.as_str());
        s.append(" started");
        s
    }

    /// Reports the processor running.
    pub fn execute(&self) -> (r: String)
        ensures
            r@ == "CPU executing instructions"@,
    {
        String::from_str("CPU executing instructions")
    }

    /// Reports the processor stopping.
    pub fn stop(&self) -> (r: String)
        ensures
            r@ == "CPU stopped"@,
    {
        String::from_str("CPU stopped")
    }
}

pub struct Memory {
    /// Size in megabytes.
    pub size: u32,
}

impl Memory {
    /// Reports the memory being loaded.
    pub fn load(&self) -> (r: String)
        ensures
            r@ == "Loading "@ + digits_of(self.size as nat) + "MB memory"@,
    {
        let mut s = String::from_str("Loading ");
        s.append(decimal(self.size as u64).as_str());
        s.append("MB memory");
        s
    }

    /// Reports the memory being released.
    pub fn unload(&self) -> (r: String)
        ensures
            r@ == "Unloading memory"@,
    {
        String::from_str("Unloading memory")
    }
}

pub struct HardDrive {
    /// Capacity in gigabytes.
    pub capacity: u32,
}

impl HardDrive {
    /// Reports a read from the drive.
    pub fn read(&self) -> (r: String)
        ensures
            r@ == "Reading from "@ + digits_of(self.capacity as nat) + "GB hard drive"@,
    {
        let mut s = String::from_str("Reading from ");
        s.append(decimal(self.capacity as u64).as_str());
        s.append("GB hard drive");
        s
    }

    /// Reports a write to the drive.
    pub fn write(&self) -> (r: String)
        ensures
            r@ == "Writing to "@ + digits_of(self.capacity as nat) + "GB hard drive"@,
    {
        let mut s = String::from_str("Writing to ");
        s.append(decimal(self.capacity as u64).as_str());
        s.append("GB hard drive");
        s
    }
}

/// One entry point for starting and stopping a computer's parts in order.
pub struct ComputerFacade {
    cpu: CPU,
    memory: Memory,
    hard_drive: HardDrive,
}

impl ComputerFacade {
    pub closed spec fn cpu_name(&self) -> Seq<char> {
        self.cpu.name@
    }

    pub closed spec fn memory_size(&self) -> u32 {
        self.memory.size
    }

    pub closed spec fn drive_capacity(&self) -> u32 {
        self.hard_drive.capacity
    }

    /// An "Intel i7" with 8192 MB of memory and a 500 GB drive.
    pub fn new() -> (r: Self)
        ensures
            r.cpu_name() == "Intel i7"@,
            r.memory_size() == 8192,
            r.drive_capacity() == 500,
    {
        ComputerFacade {
            cpu: CPU { name: String::from_str("Intel i7") },
            memory: Memory { size: 8192 },
            hard_drive: HardDrive { capacity: 500 },
        }
    }

    /// Starts the parts in order: processor, memory, drive, then execution.
    /// Returns the lines reported.
    pub fn start_computer(&self) -> (r: Vec<String>)
        ensures
            texts(r@) == seq![
                "Starting computer..."@,
                "CPU "@ + self.cpu_name() + " started"@,
                "Loading "@ + digits_of(self.memory_size() as nat) + "MB memory"@,
                "Reading from "@ + digits_of(self.drive_capacity() as nat) + "GB hard drive"@,
                "CPU executing instructions"@,
                "Computer ready!\n"@,
            ],
    {
        let mut v: Vec<String> = Vec::new();
        v.push(String::from_str("Starting computer..."));
        v.push(self.cpu.start());
        v.push(self.memory.load());
        v.push(self.hard_drive.read());
        v.push(self.cpu.execute());
        v.push(String::from_str("Computer ready!\n"));
        assert(texts(v@) =~= seq![
            "Starting computer..."@,
            "CPU "@ + self.cpu_name() + " started"@,
            "Loading "@ + digits_of(self.memory_size() as nat) + "MB memory"@,
            "Reading from "@ + digits_of(self.drive_capacity() as nat) + "GB hard drive"@,
            "CPU executing instructions"@,
            "Computer ready!\n"@,
        ]);
        v
    }

    /// Stops the parts in order: processor, memory, drive. Returns the lines reported.
    pub fn shutdown_computer(&self) -> (r: Vec<String>)
        ensures
            texts(r@) == seq![
                "Shutting down computer..."@,
                "CPU stopped"@,
                "Unloading memory"@,
                "Writing to "@ + digits_of(self.drive_capacity() as nat) + "GB hard drive"@,
                "Computer shut down.\n"@,
            ],
    {
        let mut v: Vec<String> = Vec::new();
        v.push(String::from_str("Shutting down computer..."));
        v.push(self.cpu.stop());
        v.push(self.memory.unload());
        v.push(self.hard_drive.write());
        v.push(String::from_str("Computer shut down.\n"));
        assert(texts(v@) =~= seq![
            "Shutting down computer..."@,
            "CPU stopped"@,
            "Unloading memory"@,
            "Writing to "@ + digits_of(self.drive_capacity() as nat) + "GB hard drive"@,
            "Computer shut down.\n"@,
        ]);
        v
    }
}

} // verus!
