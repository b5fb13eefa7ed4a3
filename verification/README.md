# kosher_calendar

A verified library of the Hebrew calendar: Jewish holidays, the arithmetic of
the calendar (molad, year lengths, postponements), the weekly readings that
can be fixed without the reading tables, and the daily learning schedules
(Daf Yomi Bavli and Yerushalmi, Amud Yomi of Dirshu, Mishna Yomis, Pirkei
Avos and the monthly Tehillim).

Dates are held as day numbers; their Hebrew fields are read from
`icu_calendar`, through the trusted items of `src/icu.rs`. Everything else in
`src/` is proved by Verus against the contracts it states.

- `src/` the library; `src/icu.rs` holds every call into `icu_calendar`.
- `tests/` the tests, run against the compiled library.
- `app/` JavaScript bindings (`wasm-bindgen`, `serde`) of the schedules.
