# usb_uhci

The logic of a driver for USB 1.1 host controllers that follow the Universal Host
Controller Interface (UHCI), written and proved in Verus.

* `src/` is the library. It works in place on the structures that driver and controller
  share in memory (`td`, `qh`, `frame_list`), and decides what is read from and written to
  the controller's registers (`registers`, `command`, `interrupt`, `status`, `port`,
  `frame`), how the controller is found and brought up (`discovery`, `controller`,
  `mapping`), and what is known of the devices (`device`). Each function states its
  behaviour in `requires` and `ensures`; the functions named `law_...` prove what holds of
  several of them together.
* `src/cell.rs` holds everything that is believed without proof: that a word of the
  `volatile` crate reads as what was last written to it.
* `tests/` runs the library on concrete values.
* `app/` puts the library into a kernel: it accesses I/O space, maps memory and keeps the
  shared structures behind locks.
