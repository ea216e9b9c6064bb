# touchtablet

Turns the contacts of a Windows precision touchpad into absolute pointer
moves, so that the touchpad works like a drawing tablet.

- `src/` is the verified library:
  - `pointer`: scaling touchpad coordinates to screen pixels and
    normalizing pixels to absolute coordinates over the virtual desktop;
  - `raw_input`: the window procedure as a state machine, the message-loop
    decision and the touchpad registration;
  - `hid`: reading a device's preparsed HID data and handling one touchpad
    report, both as state machines, and the buffer for value capabilities;
  - `text`: decoding device names from UTF-16 and the NUL-terminated
    window-class name.
- `app/` is the Win32 program: it performs the calls that the state
  machines ask for and hands back what the system answered.
- `tests/` exercises the library on concrete values.
