//! The header at the start of the hypervisor image, through which the loader and the
//! hypervisor tell each other how the image is laid out and how many CPUs there are.

use vstd::prelude::*;

verus! {

/// The signature of a hypervisor image: `RVMIMAGE`.
pub open spec fn header_signature() -> Seq<u8> {
    seq![0x52u8, 0x56, 0x4d, 0x49, 0x4d, 0x41, 0x47, 0x45]
}

/// The signature spells `RVMIMAGE`.
pub proof fn the_signature_is_rvmimage()
    ensures
        header_signature().len() == 8,
        header_signature()[0] == 'R' as u8,
        header_signature()[1] == 'V' as u8,
        header_signature()[2] == 'M' as u8,
        header_signature()[3] == 'I' as u8,
        header_signature()[4] == 'M' as u8,
        header_signature()[5] == 'A' as u8,
        header_signature()[6] == 'G' as u8,
        header_signature()[7] == 'E' as u8,
{
}

/// The header of the hypervisor image.
#[derive(Clone, Copy, Debug, PartialEq, Eq)]
pub struct HvHeader {
    /// `RVMIMAGE`.
    pub signature: [u8; 8],
    /// How large the code and the data of the hypervisor are.
    pub core_size: usize,
    /// How large the area of each CPU is.
    pub percpu_size: usize,
    /// Where the entry point lies, counted from the header.
    pub entry: usize,
    pub console_page: usize,
    pub gcov_info_head: usize,
    /// How many CPUs the hypervisor has room for; the loader fills it in.
    pub max_cpus: u32,
    /// How many CPUs are online; the loader fills it in.
    pub online_cpus: u32,
    pub debug_console_base: usize,
    pub arm_linux_hyp_vectors: u64,
    pub arm_linux_hyp_abi: u32,
}

impl HvHeader {
    /// The header as it stands in the image, before the loader fills in what it knows.
    pub fn in_image(core_size: usize, percpu_size: usize, entry: usize) -> (h: Self)
        ensures
            h.signature@ == header_signature(),
            h.core_size == core_size,
            h.percpu_size == percpu_size,
            h.entry == entry,
            h.console_page == 0,
            h.gcov_info_head == 0,
            h.max_cpus == 0,
            h.online_cpus == 0,
            h.debug_console_base == 0,
            h.arm_linux_hyp_vectors == 0,
            h.arm_linux_hyp_abi == 0,
    {
        let signature: [u8; 8] = [0x52, 0x56, 0x4d, 0x49, 0x4d, 0x41, 0x47, 0x45];
        assert(signature@ =~= header_signature());
        HvHeader {
            signature,
            core_size,
            percpu_size,
            entry,
            console_page: 0,
            gcov_info_head: 0,
            max_cpus: 0,
            online_cpus: 0,
            debug_console_base: 0,
            arm_linux_hyp_vectors: 0,
            arm_linux_hyp_abi: 0,
        }
    }
}

} // verus!
