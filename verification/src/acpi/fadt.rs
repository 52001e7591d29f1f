//! The fixed ACPI description table.
use vstd::prelude::*;
use crate::acpi::bytes::{le_u16, le_u32, le_u64, read_u16, read_u32, read_u64};
use crate::acpi::gas::{Gas, gas_matches};
use crate::acpi::sdt::{Sdt, sdt_matches};

verus! {

/// Size of the table in its ACPI 6 layout, in bytes.
pub const FADT_SIZE: usize = 276;

/// The fixed ACPI description table.
#[derive(Debug, Clone, Copy)]
pub struct Fadt {
    pub header: Sdt,
    pub firmware_ctrl: u32,
    pub dsdt: u32,
    pub reserved: u8,
    pub preferred_pm_profile: u8,
    pub sci_int: u16,
    pub smi_cmd: u32,
    pub acpi_enable: u8,
    pub acpi_disable: u8,
    pub s4bios_req: u8,
    pub pstate_cnt: u8,
    pub pm1a_evt_blk: u32,
    pub pm1b_evt_blk: u32,
    pub pm1a_cnt_blk: u32,
    pub pm1b_cnt_blk: u32,
    pub pm2_cnt_blk: u32,
    pub pm_tmr_blk: u32,
    pub gpe0_blk: u32,
    pub gpe1_blk: u32,
    pub pm1_evt_len: u8,
    pub pm1_cnt_len: u8,
    pub pm2_cnt_len: u8,
    pub pm_tmr_len: u8,
    pub gpe0_blk_len: u8,
    pub gpe1_blk_len: u8,
    pub gpe1_base: u8,
    pub cst_cnt: u8,
    pub p_lvl2_lat: u16,
    pub p_lvl3_lat: u16,
    pub flush_size: u16,
    pub flush_stride: u16,
    pub duty_offset: u8,
    pub duty_width: u8,
    pub day_alrm: u8,
    pub mon_alrm: u8,
    pub century: u8,
    pub iapc_boot_arch: u16,
    pub reserved1: u8,
    pub flags: u32,
    pub reset_reg: Gas,
    pub reset_value: u8,
    pub arm_boot_arch: u16,
    pub fadt_minor_version: u8,
    pub x_firmware_ctrl: u64,
    pub x_dsdt: u64,
    pub x_pm1a_evt_blk: Gas,
    pub x_pm1b_evt_blk: Gas,
    pub x_pm1a_cnt_blk: Gas,
    pub x_pm1b_cnt_blk: Gas,
    pub x_pm2_cnt_blk: Gas,
    pub x_pm_tmr_blk: Gas,
    pub x_gpe0_blk: Gas,
    pub x_gpe1_blk: Gas,
    pub sleep_control_reg: Gas,
    pub sleep_status_reg: Gas,
    pub hypervisor_vendor_identity: u64,
}

/// Whether `f` holds the fields laid out at the start of `b`.
pub open spec fn fadt_matches(f: Fadt, b: Seq<u8>) -> bool {
    &&& sdt_matches(f.header, b)
    &&& f.firmware_ctrl == le_u32(b, 36)
    &&& f.dsdt == le_u32(b, 40)
    &&& f.reserved == b[44]
    &&& f.preferred_pm_profile == b[45]
    &&& f.sci_int == le_u16(b, 46)
    &&& f.smi_cmd == le_u32(b, 48)
    &&& f.acpi_enable == b[52]
    &&& f.acpi_disable == b[53]
    &&& f.s4bios_req == b[54]
    &&& f.pstate_cnt == b[55]
    &&& f.pm1a_evt_blk == le_u32(b, 56)
    &&& f.pm1b_evt_blk == le_u32(b, 60)
    &&& f.pm1a_cnt_blk == le_u32(b, 64)
    &&& f.pm1b_cnt_blk == le_u32(b, 68)
    &&& f.pm2_cnt_blk == le_u32(b, 72)
    &&& f.pm_tmr_blk == le_u32(b, 76)
    &&& f.gpe0_blk == le_u32(b, 80)
    &&& f.gpe1_blk == le_u32(b, 84)
    &&& f.pm1_evt_len == b[88]
    &&& f.pm1_cnt_len == b[89]
    &&& f.pm2_cnt_len == b[90]
    &&& f.pm_tmr_len == b[91]
    &&& f.gpe0_blk_len == b[92]
    &&& f.gpe1_blk_len == b[93]
    &&& f.gpe1_base == b[94]
    &&& f.cst_cnt == b[95]
    &&& f.p_lvl2_lat == le_u16(b, 96)
    &&& f.p_lvl3_lat == le_u16(b, 98)
    &&& f.flush_size == le_u16(b, 100)
    &&& f.flush_stride == le_u16(b, 102)
    &&& f.duty_offset == b[104]
    &&& f.duty_width == b[105]
    &&& f.day_alrm == b[106]
    &&& f.mon_alrm == b[107]
    &&& f.century == b[108]
    &&& f.iapc_boot_arch == le_u16(b, 109)
    &&& f.reserved1 == b[111]
    &&& f.flags == le_u32(b, 112)
    &&& gas_matches(f.reset_reg, b, 116)
    &&& f.reset_value == b[128]
    &&& f.arm_boot_arch == le_u16(b, 129)
    &&& f.fadt_minor_version == b[131]
    &&& f.x_firmware_ctrl == le_u64(b, 132)
    &&& f.x_dsdt == le_u64(b, 140)
    &&& gas_matches(f.x_pm1a_evt_blk, b, 148)
    &&& gas_matches(f.x_pm1b_evt_blk, b, 160)
    &&& gas_matches(f.x_pm1a_cnt_blk, b, 172)
    &&& gas_matches(f.x_pm1b_cnt_blk, b, 184)
    &&& gas_matches(f.x_pm2_cnt_blk, b, 196)
    &&& gas_matches(f.x_pm_tmr_blk, b, 208)
    &&& gas_matches(f.x_gpe0_blk, b, 220)
    &&& gas_matches(f.x_gpe1_blk, b, 232)
    &&& gas_matches(f.sleep_control_reg, b, 244)
    &&& gas_matches(f.sleep_status_reg, b, 256)
    &&& f.hypervisor_vendor_identity == le_u64(b, 268)
}

/// The table's fields follow the header one after another in the ACPI
/// layout, each multi-byte field least significant byte first: the
/// firmware control and DSDT addresses at 36 and 40, the SCI interrupt at
/// 46, the SMI command port at 48 with the ACPI enable and disable values
/// at 52 and 53, the power management blocks from 56, their lengths from
/// 88, the boot architecture flags at 109, the flags at 112, the reset
/// register at 116 with its value at 128, the 64-bit addresses from 132,
/// the extended blocks from 148 and the hypervisor identity at 268.
pub proof fn lemma_fadt_layout(f: Fadt, b: Seq<u8>)
    requires
        fadt_matches(f, b),
    ensures
        f.firmware_ctrl == b[36] + b[37] * 0x100 + b[38] * 0x1_0000 + b[39] * 0x100_0000,
        f.dsdt == b[40] + b[41] * 0x100 + b[42] * 0x1_0000 + b[43] * 0x100_0000,
        f.reserved == b[44],
        f.preferred_pm_profile == b[45],
        f.sci_int == b[46] + b[47] * 0x100,
        f.smi_cmd == b[48] + b[49] * 0x100 + b[50] * 0x1_0000 + b[51] * 0x100_0000,
        f.acpi_enable == b[52],
        f.acpi_disable == b[53],
        f.s4bios_req == b[54],
        f.pstate_cnt == b[55],
        f.pm1a_evt_blk == b[56] + b[57] * 0x100 + b[58] * 0x1_0000 + b[59] * 0x100_0000,
        f.pm1b_evt_blk == b[60] + b[61] * 0x100 + b[62] * 0x1_0000 + b[63] * 0x100_0000,
        f.pm1a_cnt_blk == b[64] + b[65] * 0x100 + b[66] * 0x1_0000 + b[67] * 0x100_0000,
        f.pm1b_cnt_blk == b[68] + b[69] * 0x100 + b[70] * 0x1_0000 + b[71] * 0x100_0000,
        f.pm2_cnt_blk == b[72] + b[73] * 0x100 + b[74] * 0x1_0000 + b[75] * 0x100_0000,
        f.pm_tmr_blk == b[76] + b[77] * 0x100 + b[78] * 0x1_0000 + b[79] * 0x100_0000,
        f.gpe0_blk == b[80] + b[81] * 0x100 + b[82] * 0x1_0000 + b[83] * 0x100_0000,
        f.gpe1_blk == b[84] + b[85] * 0x100 + b[86] * 0x1_0000 + b[87] * 0x100_0000,
        f.pm1_evt_len == b[88],
        f.pm1_cnt_len == b[89],
        f.pm2_cnt_len == b[90],
        f.pm_tmr_len == b[91],
        f.gpe0_blk_len == b[92],
        f.gpe1_blk_len == b[93],
        f.gpe1_base == b[94],
        f.cst_cnt == b[95],
        f.p_lvl2_lat == b[96] + b[97] * 0x100,
        f.p_lvl3_lat == b[98] + b[99] * 0x100,
        f.flush_size == b[100] + b[101] * 0x100,
        f.flush_stride == b[102] + b[103] * 0x100,
        f.duty_offset == b[104],
        f.duty_width == b[105],
        f.day_alrm == b[106],
        f.mon_alrm == b[107],
        f.century == b[108],
        f.iapc_boot_arch == b[109] + b[110] * 0x100,
        f.reserved1 == b[111],
        f.flags == b[112] + b[113] * 0x100 + b[114] * 0x1_0000 + b[115] * 0x100_0000,
        f.reset_value == b[128],
        f.arm_boot_arch == b[129] + b[130] * 0x100,
        f.fadt_minor_version == b[131],
        f.x_firmware_ctrl == b[132] + b[133] * 0x100 + b[134] * 0x1_0000 + b[135] * 0x100_0000 + b[136] * 0x1_0000_0000 + b[137] * 0x100_0000_0000 + b[138] * 0x1_0000_0000_0000 + b[139] * 0x100_0000_0000_0000,
        f.x_dsdt == b[140] + b[141] * 0x100 + b[142] * 0x1_0000 + b[143] * 0x100_0000 + b[144] * 0x1_0000_0000 + b[145] * 0x100_0000_0000 + b[146] * 0x1_0000_0000_0000 + b[147] * 0x100_0000_0000_0000,
        f.hypervisor_vendor_identity == b[268] + b[269] * 0x100 + b[270] * 0x1_0000 + b[271] * 0x100_0000 + b[272] * 0x1_0000_0000 + b[273] * 0x100_0000_0000 + b[274] * 0x1_0000_0000_0000 + b[275] * 0x100_0000_0000_0000,
        f.reset_reg.address_space_id == b[116] && f.reset_reg.register_bit_width == b[117]
            && f.reset_reg.register_bit_offset == b[118] && f.reset_reg.access_size == b[119]
            && f.reset_reg.address == b[120] + b[121] * 0x100 + b[122] * 0x1_0000 + b[123] * 0x100_0000 + b[124] * 0x1_0000_0000 + b[125] * 0x100_0000_0000 + b[126] * 0x1_0000_0000_0000 + b[127] * 0x100_0000_0000_0000,
        f.x_pm1a_evt_blk.address_space_id == b[148] && f.x_pm1a_evt_blk.register_bit_width == b[149]
            && f.x_pm1a_evt_blk.register_bit_offset == b[150] && f.x_pm1a_evt_blk.access_size == b[151]
            && f.x_pm1a_evt_blk.address == b[152] + b[153] * 0x100 + b[154] * 0x1_0000 + b[155] * 0x100_0000 + b[156] * 0x1_0000_0000 + b[157] * 0x100_0000_0000 + b[158] * 0x1_0000_0000_0000 + b[159] * 0x100_0000_0000_0000,
        f.x_pm1b_evt_blk.address_space_id == b[160] && f.x_pm1b_evt_blk.register_bit_width == b[161]
            && f.x_pm1b_evt_blk.register_bit_offset == b[162] && f.x_pm1b_evt_blk.access_size == b[163]
            && f.x_pm1b_evt_blk.address == b[164] + b[165] * 0x100 + b[166] * 0x1_0000 + b[167] * 0x100_0000 + b[168] * 0x1_0000_0000 + b[169] * 0x100_0000_0000 + b[170] * 0x1_0000_0000_0000 + b[171] * 0x100_0000_0000_0000,
        f.x_pm1a_cnt_blk.address_space_id == b[172] && f.x_pm1a_cnt_blk.register_bit_width == b[173]
            && f.x_pm1a_cnt_blk.register_bit_offset == b[174] && f.x_pm1a_cnt_blk.access_size == b[175]
            && f.x_pm1a_cnt_blk.address == b[176] + b[177] * 0x100 + b[178] * 0x1_0000 + b[179] * 0x100_0000 + b[180] * 0x1_0000_0000 + b[181] * 0x100_0000_0000 + b[182] * 0x1_0000_0000_0000 + b[183] * 0x100_0000_0000_0000,
        f.x_pm1b_cnt_blk.address_space_id == b[184] && f.x_pm1b_cnt_blk.register_bit_width == b[185]
            && f.x_pm1b_cnt_blk.register_bit_offset == b[186] && f.x_pm1b_cnt_blk.access_size == b[187]
            && f.x_pm1b_cnt_blk.address == b[188] + b[189] * 0x100 + b[190] * 0x1_0000 + b[191] * 0x100_0000 + b[192] * 0x1_0000_0000 + b[193] * 0x100_0000_0000 + b[194] * 0x1_0000_0000_0000 + b[195] * 0x100_0000_0000_0000,
        f.x_pm2_cnt_blk.address_space_id == b[196] && f.x_pm2_cnt_blk.register_bit_width == b[197]
            && f.x_pm2_cnt_blk.register_bit_offset == b[198] && f.x_pm2_cnt_blk.access_size == b[199]
            && f.x_pm2_cnt_blk.address == b[200] + b[201] * 0x100 + b[202] * 0x1_0000 + b[203] * 0x100_0000 + b[204] * 0x1_0000_0000 + b[205] * 0x100_0000_0000 + b[206] * 0x1_0000_0000_0000 + b[207] * 0x100_0000_0000_0000,
        f.x_pm_tmr_blk.address_space_id == b[208] && f.x_pm_tmr_blk.register_bit_width == b[209]
            && f.x_pm_tmr_blk.register_bit_offset == b[210] && f.x_pm_tmr_blk.access_size == b[211]
            && f.x_pm_tmr_blk.address == b[212] + b[213] * 0x100 + b[214] * 0x1_0000 + b[215] * 0x100_0000 + b[216] * 0x1_0000_0000 + b[217] * 0x100_0000_0000 + b[218] * 0x1_0000_0000_0000 + b[219] * 0x100_0000_0000_0000,
        f.x_gpe0_blk.address_space_id == b[220] && f.x_gpe0_blk.register_bit_width == b[221]
            && f.x_gpe0_blk.register_bit_offset == b[222] && f.x_gpe0_blk.access_size == b[223]
            && f.x_gpe0_blk.address == b[224] + b[225] * 0x100 + b[226] * 0x1_0000 + b[227] * 0x100_0000 + b[228] * 0x1_0000_0000 + b[229] * 0x100_0000_0000 + b[230] * 0x1_0000_0000_0000 + b[231] * 0x100_0000_0000_0000,
        f.x_gpe1_blk.address_space_id == b[232] && f.x_gpe1_blk.register_bit_width == b[233]
            && f.x_gpe1_blk.register_bit_offset == b[234] && f.x_gpe1_blk.access_size == b[235]
            && f.x_gpe1_blk.address == b[236] + b[237] * 0x100 + b[238] * 0x1_0000 + b[239] * 0x100_0000 + b[240] * 0x1_0000_0000 + b[241] * 0x100_0000_0000 + b[242] * 0x1_0000_0000_0000 + b[243] * 0x100_0000_0000_0000,
        f.sleep_control_reg.address_space_id == b[244] && f.sleep_control_reg.register_bit_width == b[245]
            && f.sleep_control_reg.register_bit_offset == b[246] && f.sleep_control_reg.access_size == b[247]
            && f.sleep_control_reg.address == b[248] + b[249] * 0x100 + b[250] * 0x1_0000 + b[251] * 0x100_0000 + b[252] * 0x1_0000_0000 + b[253] * 0x100_0000_0000 + b[254] * 0x1_0000_0000_0000 + b[255] * 0x100_0000_0000_0000,
        f.sleep_status_reg.address_space_id == b[256] && f.sleep_status_reg.register_bit_width == b[257]
            && f.sleep_status_reg.register_bit_offset == b[258] && f.sleep_status_reg.access_size == b[259]
            && f.sleep_status_reg.address == b[260] + b[261] * 0x100 + b[262] * 0x1_0000 + b[263] * 0x100_0000 + b[264] * 0x1_0000_0000 + b[265] * 0x100_0000_0000 + b[266] * 0x1_0000_0000_0000 + b[267] * 0x100_0000_0000_0000,
{
    crate::acpi::bytes::lemma_le_values(b, 36);
    crate::acpi::bytes::lemma_le_values(b, 40);
    crate::acpi::bytes::lemma_le_values(b, 46);
    crate::acpi::bytes::lemma_le_values(b, 48);
    crate::acpi::bytes::lemma_le_values(b, 56);
    crate::acpi::bytes::lemma_le_values(b, 60);
    crate::acpi::bytes::lemma_le_values(b, 64);
    crate::acpi::bytes::lemma_le_values(b, 68);
    crate::acpi::bytes::lemma_le_values(b, 72);
    crate::acpi::bytes::lemma_le_values(b, 76);
    crate::acpi::bytes::lemma_le_values(b, 80);
    crate::acpi::bytes::lemma_le_values(b, 84);
    crate::acpi::bytes::lemma_le_values(b, 96);
    crate::acpi::bytes::lemma_le_values(b, 98);
    crate::acpi::bytes::lemma_le_values(b, 100);
    crate::acpi::bytes::lemma_le_values(b, 102);
    crate::acpi::bytes::lemma_le_values(b, 109);
    crate::acpi::bytes::lemma_le_values(b, 112);
    crate::acpi::bytes::lemma_le_values(b, 129);
    crate::acpi::bytes::lemma_le_values(b, 132);
    crate::acpi::bytes::lemma_le_values(b, 140);
    crate::acpi::bytes::lemma_le_values(b, 268);
    crate::acpi::gas::lemma_gas_layout(f.reset_reg, b, 116);
    crate::acpi::gas::lemma_gas_layout(f.x_pm1a_evt_blk, b, 148);
    crate::acpi::gas::lemma_gas_layout(f.x_pm1b_evt_blk, b, 160);
    crate::acpi::gas::lemma_gas_layout(f.x_pm1a_cnt_blk, b, 172);
    crate::acpi::gas::lemma_gas_layout(f.x_pm1b_cnt_blk, b, 184);
    crate::acpi::gas::lemma_gas_layout(f.x_pm2_cnt_blk, b, 196);
    crate::acpi::gas::lemma_gas_layout(f.x_pm_tmr_blk, b, 208);
    crate::acpi::gas::lemma_gas_layout(f.x_gpe0_blk, b, 220);
    crate::acpi::gas::lemma_gas_layout(f.x_gpe1_blk, b, 232);
    crate::acpi::gas::lemma_gas_layout(f.sleep_control_reg, b, 244);
    crate::acpi::gas::lemma_gas_layout(f.sleep_status_reg, b, 256);
}

impl Fadt {
    /// Reads the table in `table`; `None` if it is shorter than
    /// `FADT_SIZE` bytes.
    pub fn new(table: &[u8]) -> (r: Option<Fadt>)
        ensures
            r is Some <==> table@.len() >= FADT_SIZE,
            r matches Some(f) ==> fadt_matches(f, table@),
    {
        if table.len() < FADT_SIZE {
            return None;
        }
        let header = match Sdt::parse(table) {
            Some(h) => h,
            None => return None,
        };
        Some(Fadt {
            header,
            firmware_ctrl: read_u32(table, 36),
            dsdt: read_u32(table, 40),
            reserved: table[44],
            preferred_pm_profile: table[45],
            sci_int: read_u16(table, 46),
            smi_cmd: read_u32(table, 48),
            acpi_enable: table[52],
            acpi_disable: table[53],
            s4bios_req: table[54],
            pstate_cnt: table[55],
            pm1a_evt_blk: read_u32(table, 56),
            pm1b_evt_blk: read_u32(table, 60),
            pm1a_cnt_blk: read_u32(table, 64),
            pm1b_cnt_blk: read_u32(table, 68),
            pm2_cnt_blk: read_u32(table, 72),
            pm_tmr_blk: read_u32(table, 76),
            gpe0_blk: read_u32(table, 80),
            gpe1_blk: read_u32(table, 84),
            pm1_evt_len: table[88],
            pm1_cnt_len: table[89],
            pm2_cnt_len: table[90],
            pm_tmr_len: table[91],
            gpe0_blk_len: table[92],
            gpe1_blk_len: table[93],
            gpe1_base: table[94],
            cst_cnt: table[95],
            p_lvl2_lat: read_u16(table, 96),
            p_lvl3_lat: read_u16(table, 98),
            flush_size: read_u16(table, 100),
            flush_stride: read_u16(table, 102),
            duty_offset: table[104],
            duty_width: table[105],
            day_alrm: table[106],
            mon_alrm: table[107],
            century: table[108],
            iapc_boot_arch: read_u16(table, 109),
            reserved1: table[111],
            flags: read_u32(table, 112),
            reset_reg: Gas::parse(table, 116),
            reset_value: table[128],
            arm_boot_arch: read_u16(table, 129),
            fadt_minor_version: table[131],
            x_firmware_ctrl: read_u64(table, 132),
            x_dsdt: read_u64(table, 140),
            x_pm1a_evt_blk: Gas::parse(table, 148),
            x_pm1b_evt_blk: Gas::parse(table, 160),
            x_pm1a_cnt_blk: Gas::parse(table, 172),
            x_pm1b_cnt_blk: Gas::parse(table, 184),
            x_pm2_cnt_blk: Gas::parse(table, 196),
            x_pm_tmr_blk: Gas::parse(table, 208),
            x_gpe0_blk: Gas::parse(table, 220),
            x_gpe1_blk: Gas::parse(table, 232),
            sleep_control_reg: Gas::parse(table, 244),
            sleep_status_reg: Gas::parse(table, 256),
            hypervisor_vendor_identity: read_u64(table, 268),
        })
    }
}

} // verus!
