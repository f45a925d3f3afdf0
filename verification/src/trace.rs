//! The execution trace line, in the classic test-log layout:
//! `PC  BYTES  DISASM  A:.. X:.. Y:.. P:.. SP:..`.

use vstd::prelude::*;
use crate::bus::bus_wf;
use crate::cpu::CPU;
use crate::opcodes::opcode_lookup;
use crate::opcodes::AddressingMode;
use crate::util::ascii_string;
use vstd::string::StringSliceAdditionalSpecFns;

verus! {

/// The ASCII code of an uppercase hex digit.
pub open spec fn hex_digit(n: u8) -> u8 {
    if n < 10 {
        (0x30 + n) as u8
    } else {
        (0x37 + n) as u8
    }
}

/// Two uppercase hex digits of a byte.
pub open spec fn hex2(v: u8) -> Seq<u8> {
    seq![hex_digit(v / 16), hex_digit(v % 16)]
}

/// Four uppercase hex digits of a word.
pub open spec fn hex4(v: u16) -> Seq<u8> {
    hex2((v / 0x100) as u8) + hex2((v % 0x100) as u8)
}

/// The 25-byte register block that ends a trace line:
/// `A:.. X:.. Y:.. P:.. SP:..`.
pub open spec fn trace_register_block(c: CPU) -> Seq<u8> {
    seq![0x41u8, 0x3Au8] + hex2(c.register_a) + seq![0x20u8, 0x58u8, 0x3Au8] + hex2(c.register_x)
        + seq![0x20u8, 0x59u8, 0x3Au8] + hex2(c.register_y) + seq![0x20u8, 0x50u8, 0x3Au8] + hex2(
        c.status,
    ) + seq![0x20u8, 0x53u8, 0x50u8, 0x3Au8] + hex2(c.stack_pointer)
}

/// Every byte of the buffer is plain ASCII.
pub open spec fn all_ascii(s: Seq<u8>) -> bool {
    forall|i: int| 0 <= i < s.len() ==> #[trigger] s[i] < 0x80
}

fn push_byte(out: &mut Vec<u8>, b: u8)
    requires
        b < 0x80,
    ensures
        final(out)@ == old(out)@.push(b),
        all_ascii(old(out)@) ==> all_ascii(final(out)@),
{
    out.push(b);
}

fn push_hex2(out: &mut Vec<u8>, v: u8)
    ensures
        final(out)@ == old(out)@ + hex2(v),
        all_ascii(old(out)@) ==> all_ascii(final(out)@),
{
    let hi = v / 16;
    let lo = v % 16;
    out.push(if hi < 10 { 0x30 + hi } else { 0x37 + hi });
    out.push(if lo < 10 { 0x30 + lo } else { 0x37 + lo });
    assert(out@ =~= old(out)@ + hex2(v));
}

fn push_hex4(out: &mut Vec<u8>, v: u16)
    ensures
        final(out)@ == old(out)@ + hex4(v),
        all_ascii(old(out)@) ==> all_ascii(final(out)@),
{
    push_hex2(out, (v / 0x100) as u8);
    push_hex2(out, (v % 0x100) as u8);
    assert(out@ =~= old(out)@ + hex4(v));
}

/// Append the bytes of a mnemonic; a byte outside ASCII (which no
/// mnemonic contains) is replaced by `?`.
fn push_str_bytes(out: &mut Vec<u8>, s: &str)
    ensures
        final(out)@.len() == old(out)@.len() + s.spec_bytes().len(),
        final(out)@.take(old(out)@.len() as int) == old(out)@,
        all_ascii(old(out)@) ==> all_ascii(final(out)@),
{
    let bytes = s.as_bytes();
    let n = bytes.len();
    let mut i: usize = 0;
    while i < n
        invariant
            n == bytes@.len(),
            i <= n,
            out@.len() == old(out)@.len() + i,
            out@.take(old(out)@.len() as int) == old(out)@,
            all_ascii(old(out)@) ==> all_ascii(out@),
        decreases n - i,
    {
        let b = bytes[i];
        out.push(if b < 0x80 { b } else { 0x3F });
        assert(out@.take(old(out)@.len() as int) =~= old(out)@);
        i += 1;
    }
}

/// Pad the buffer with spaces until it holds `width` bytes past `start`.
fn pad_to(out: &mut Vec<u8>, start: usize, width: usize)
    requires
        out.len() >= start,
        start + width < 0x10000,
    ensures
        final(out)@.len() >= start + width,
        final(out)@.len() >= old(out)@.len(),
        final(out)@.len() == if old(out)@.len() >= start + width {
            old(out)@.len() as int
        } else {
            start + width
        },
        final(out)@.take(old(out)@.len() as int) == old(out)@,
        all_ascii(old(out)@) ==> all_ascii(final(out)@),
{
    while out.len() < start + width
        invariant
            start + width < 0x10000,
            out@.len() >= old(out)@.len(),
            out@.len() <= start + width || out@.len() == old(out)@.len(),
            out@.take(old(out)@.len() as int) == old(out)@,
            all_ascii(old(out)@) ==> all_ascii(out@),
        decreases start + width - out.len(),
    {
        out.push(0x20);
        assert(out@.take(old(out)@.len() as int) =~= old(out)@);
    }
}

impl CPU {
    /// Disassemble the instruction at PC into `out`, following standard
    /// conventions: operand, resolved address and current memory value,
    /// per addressing mode. Reads are side-effect free.
    #[verifier::rlimit(100)]
    #[verifier::spinoff_prover]
    fn push_disassembly(&self, out: &mut Vec<u8>, code: u8, b1: u8, b2: u8)
        requires
            bus_wf(self.bus),
        ensures
            final(out)@.len() >= old(out)@.len(),
            final(out)@.take(old(out)@.len() as int) == old(out)@,
            all_ascii(old(out)@) ==> all_ascii(final(out)@),
    {
        let op = opcode_lookup(code);
        push_str_bytes(out, op.name);
        let abs: u16 = (b2 as u16) * 0x100 + (b1 as u16);
        match op.mode {
            AddressingMode::Immediate => {
                push_byte(out, 0x20);
                push_byte(out, 0x23);
                push_byte(out, 0x24);
                push_hex2(out, b1);
            }
            AddressingMode::ZeroPage => {
                push_byte(out, 0x20);
                push_byte(out, 0x24);
                push_hex2(out, b1);
                let value = self.bus.mem_read_readonly(b1 as u16);
                push_byte(out, 0x20);
                push_byte(out, 0x3D);
                push_byte(out, 0x20);
                push_hex2(out, value);
            }
            AddressingMode::ZeroPage_X => {
                push_byte(out, 0x20);
                push_byte(out, 0x24);
                push_hex2(out, b1);
                push_byte(out, 0x2C);
                push_byte(out, 0x58);
                let addr = b1.wrapping_add(self.register_x);
                let value = self.bus.mem_read_readonly(addr as u16);
                push_byte(out, 0x20);
                push_byte(out, 0x40);
                push_byte(out, 0x20);
                push_hex2(out, addr);
                push_byte(out, 0x20);
                push_byte(out, 0x3D);
                push_byte(out, 0x20);
                push_hex2(out, value);
            }
            AddressingMode::ZeroPage_Y => {
                push_byte(out, 0x20);
                push_byte(out, 0x24);
                push_hex2(out, b1);
                push_byte(out, 0x2C);
                push_byte(out, 0x59);
                let addr = b1.wrapping_add(self.register_y);
                let value = self.bus.mem_read_readonly(addr as u16);
                push_byte(out, 0x20);
                push_byte(out, 0x40);
                push_byte(out, 0x20);
                push_hex2(out, addr);
                push_byte(out, 0x20);
                push_byte(out, 0x3D);
                push_byte(out, 0x20);
                push_hex2(out, value);
            }
            AddressingMode::Absolute => {
                push_byte(out, 0x20);
                push_byte(out, 0x24);
                push_hex4(out, abs);
                // JMP and JSR print the bare target.
                if code != 0x4C && code != 0x20 {
                    let value = self.bus.mem_read_readonly(abs);
                    push_byte(out, 0x20);
                    push_byte(out, 0x3D);
                    push_byte(out, 0x20);
                    push_hex2(out, value);
                }
            }
            AddressingMode::Absolute_X => {
                push_byte(out, 0x20);
                push_byte(out, 0x24);
                push_hex4(out, abs);
                push_byte(out, 0x2C);
                push_byte(out, 0x58);
                let addr = abs.wrapping_add(self.register_x as u16);
                let value = self.bus.mem_read_readonly(addr);
                push_byte(out, 0x20);
                push_byte(out, 0x40);
                push_byte(out, 0x20);
                push_hex4(out, addr);
                push_byte(out, 0x20);
                push_byte(out, 0x3D);
                push_byte(out, 0x20);
                push_hex2(out, value);
            }
            AddressingMode::Absolute_Y => {
                push_byte(out, 0x20);
                push_byte(out, 0x24);
                push_hex4(out, abs);
                push_byte(out, 0x2C);
                push_byte(out, 0x59);
                let addr = abs.wrapping_add(self.register_y as u16);
                let value = self.bus.mem_read_readonly(addr);
                push_byte(out, 0x20);
                push_byte(out, 0x40);
                push_byte(out, 0x20);
                push_hex4(out, addr);
                push_byte(out, 0x20);
                push_byte(out, 0x3D);
                push_byte(out, 0x20);
                push_hex2(out, value);
            }
            AddressingMode::Indirect => {
                push_byte(out, 0x20);
                push_byte(out, 0x28);
                push_byte(out, 0x24);
                push_hex4(out, abs);
                push_byte(out, 0x29);
                // The page-crossing bug, as the CPU will take it.
                let second = if abs & 0x00FF == 0x00FF {
                    abs & 0xFF00
                } else {
                    abs.wrapping_add(1)
                };
                let lo = self.bus.mem_read_readonly(abs) as u16;
                let hi = self.bus.mem_read_readonly(second) as u16;
                let target = hi * 0x100 + lo;
                push_byte(out, 0x20);
                push_byte(out, 0x3D);
                push_byte(out, 0x20);
                push_hex4(out, target);
            }
            AddressingMode::Indirect_X => {
                push_byte(out, 0x20);
                push_byte(out, 0x28);
                push_byte(out, 0x24);
                push_hex2(out, b1);
                push_byte(out, 0x2C);
                push_byte(out, 0x58);
                push_byte(out, 0x29);
                let ptr = b1.wrapping_add(self.register_x);
                let lo = self.bus.mem_read_readonly(ptr as u16) as u16;
                let hi = self.bus.mem_read_readonly(ptr.wrapping_add(1) as u16) as u16;
                let addr = hi * 0x100 + lo;
                let value = self.bus.mem_read_readonly(addr);
                push_byte(out, 0x20);
                push_byte(out, 0x40);
                push_byte(out, 0x20);
                push_hex2(out, ptr);
                push_byte(out, 0x20);
                push_byte(out, 0x3D);
                push_byte(out, 0x20);
                push_hex4(out, addr);
                push_byte(out, 0x20);
                push_byte(out, 0x3D);
                push_byte(out, 0x20);
                push_hex2(out, value);
            }
            AddressingMode::Indirect_Y => {
                push_byte(out, 0x20);
                push_byte(out, 0x28);
                push_byte(out, 0x24);
                push_hex2(out, b1);
                push_byte(out, 0x29);
                push_byte(out, 0x2C);
                push_byte(out, 0x59);
                let lo = self.bus.mem_read_readonly(b1 as u16) as u16;
                let hi = self.bus.mem_read_readonly(b1.wrapping_add(1) as u16) as u16;
                let deref = hi * 0x100 + lo;
                let addr = deref.wrapping_add(self.register_y as u16);
                let value = self.bus.mem_read_readonly(addr);
                push_byte(out, 0x20);
                push_byte(out, 0x3D);
                push_byte(out, 0x20);
                push_hex4(out, deref);
                push_byte(out, 0x20);
                push_byte(out, 0x40);
                push_byte(out, 0x20);
                push_hex4(out, addr);
                push_byte(out, 0x20);
                push_byte(out, 0x3D);
                push_byte(out, 0x20);
                push_hex2(out, value);
            }
            AddressingMode::Relative => {
                let delta: u16 = if b1 < 0x80 {
                    b1 as u16
                } else {
                    0xFF00 + b1 as u16
                };
                let target = self.program_counter.wrapping_add(2).wrapping_add(delta);
                push_byte(out, 0x20);
                push_byte(out, 0x24);
                push_hex4(out, target);
            }
            AddressingMode::Accumulator => {
                push_byte(out, 0x20);
                push_byte(out, 0x41);
            }
            AddressingMode::Implied => {}
        }
    }

    /// One log line for the instruction at PC, reading memory without side
    /// effects. The line is always 73 ASCII characters: the program
    /// counter's four hex digits up front, the instruction bytes and
    /// disassembly in the middle, and the exact register block at the end.
    #[verifier::rlimit(100)]
    #[verifier::spinoff_prover]
    pub fn trace(&self) -> (r: String)
        requires
            bus_wf(self.bus),
        ensures
            r@.len() == 73,
            Seq::new(4, |i: int| r@[i] as u8) == hex4(self.program_counter),
            Seq::new(25, |i: int| r@[48 + i] as u8) == trace_register_block(*self),
    {
        let pc = self.program_counter;
        let code = self.bus.mem_read_readonly(pc);
        let op = opcode_lookup(code);

        let mut out: Vec<u8> = Vec::new();
        push_hex4(&mut out, pc);
        push_byte(&mut out, 0x20);
        push_byte(&mut out, 0x20);
        proof {
            assert(out@.len() == 6);
            assert(Seq::new(4, |i: int| out@[i]) =~= hex4(pc));
            assert(all_ascii(out@));
        }
        let ghost header = out@;

        // Instruction bytes, two hex digits each, space separated, padded
        // to eight columns.
        push_hex2(&mut out, code);
        let b1 = self.bus.mem_read_readonly(pc.wrapping_add(1));
        let b2 = self.bus.mem_read_readonly(pc.wrapping_add(2));
        if op.bytes > 1 {
            push_byte(&mut out, 0x20);
            push_hex2(&mut out, b1);
        }
        if op.bytes > 2 {
            push_byte(&mut out, 0x20);
            push_hex2(&mut out, b2);
        }
        proof {
            assert(out@.len() <= 14);
            assert(out@.take(6) =~= header);
        }
        pad_to(&mut out, 6, 8);
        push_byte(&mut out, 0x20);
        proof {
            assert(out@.len() == 15);
            assert(out@.take(6) =~= header);
        }
        let ghost with_bytes = out@;

        // Disassembly column, clamped and padded to 32.
        self.push_disassembly(&mut out, code, b1, b2);
        if out.len() > 47 {
            out.truncate(47);
        }
        proof {
            assert(out@.take(15) =~= with_bytes);
        }
        pad_to(&mut out, 15, 32);
        push_byte(&mut out, 0x20);
        proof {
            assert(out@.len() == 48);
            assert(out@.take(6) =~= header);
        }
        let ghost with_asm = out@;

        // Register block.
        push_byte(&mut out, 0x41);
        push_byte(&mut out, 0x3A);
        push_hex2(&mut out, self.register_a);
        push_byte(&mut out, 0x20);
        push_byte(&mut out, 0x58);
        push_byte(&mut out, 0x3A);
        push_hex2(&mut out, self.register_x);
        push_byte(&mut out, 0x20);
        push_byte(&mut out, 0x59);
        push_byte(&mut out, 0x3A);
        push_hex2(&mut out, self.register_y);
        push_byte(&mut out, 0x20);
        push_byte(&mut out, 0x50);
        push_byte(&mut out, 0x3A);
        push_hex2(&mut out, self.status);
        push_byte(&mut out, 0x20);
        push_byte(&mut out, 0x53);
        push_byte(&mut out, 0x50);
        push_byte(&mut out, 0x3A);
        push_hex2(&mut out, self.stack_pointer);
        proof {
            assert(out@.len() == 73);
            assert(out@.take(48) =~= with_asm);
            assert(Seq::new(25, |i: int| out@[48 + i]) =~= trace_register_block(*self));
            assert(Seq::new(4, |i: int| out@[i]) =~= hex4(pc));
            assert(all_ascii(out@));
        }
        let ghost bytes_final = out@;
        let s = ascii_string(out);
        proof {
            assert(Seq::new(4, |i: int| s@[i] as u8) =~= Seq::new(4, |i: int| bytes_final[i]));
            assert(Seq::new(25, |i: int| s@[48 + i] as u8) =~= Seq::new(
                25,
                |i: int| bytes_final[48 + i],
            ));
        }
        s
    }
}

} // verus!
