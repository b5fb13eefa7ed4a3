//! Hebrew calendar computations, Jewish holidays and daily learning schedules.
pub mod arithmetic;
pub mod date;
mod icu;
pub mod month;
pub mod holiday;
pub mod calendar;
pub mod parsha;
pub mod units;
pub mod cycle;
pub mod daf_yomi_yerushalmi;
pub mod daf_yomi_bavli;
pub mod amud_yomi_bavli_dirshu;
pub mod mishna_yomis;
pub mod tehillim_monthly;
pub mod interval;
pub mod pirkei_avos;
pub mod limud_calculator;
pub mod spa_error;
