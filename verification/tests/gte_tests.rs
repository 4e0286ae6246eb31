use shimmer::cpu::gte::{exec_gte, i44, newton_raphson_div};
use shimmer::gte::instr::Instruction;
use shimmer::gte::{Reg, Registers};

#[test]
fn newton_raphson_div_overflow() {
    assert_eq!(newton_raphson_div(10, 5), (0x1FFFF, true));
}

#[test]
fn newton_raphson_div_half() {
    // 1 / 2 with 16 fraction bits is 0x8000
    assert_eq!(newton_raphson_div(1, 2), (0x8000, false));
}

#[test]
fn i44_wraps() {
    let v = i44(0x800_0000_0000);
    assert_eq!(v.value(), -0x800_0000_0000);
}

#[test]
fn nclip_computes_cross_product() {
    let mut regs = Registers::default();
    // triangle (0,0), (4,0), (0,3): twice the area is 12
    regs.write(Reg::SXY0, 0);
    regs.write(Reg::SXY1, 4);
    regs.write(Reg::SXY2, 3 << 16);
    exec_gte(&mut regs, Instruction(0x06));
    assert_eq!(regs.read(Reg::MAC0), 12);
    assert_eq!(regs.read(Reg::FLAG), 0);
}
